//! The vault record: one per (owner, mint) pair, with a fixed 80-byte layout.
use vstd::prelude::*;

use vstd::bytes::{
    lemma_auto_spec_u64_to_from_le_bytes, spec_u64_to_le_bytes, u64_from_le_bytes,
    u64_to_le_bytes,
};
use vstd::slice::slice_subrange;

use crate::address::Address;

verus! {

/// Length of the record's payload in bytes, past the storage engine's own header.
pub const RECORD_LEN: usize = 80;

/// The vault record. `deposited` is the vault's own count of the units it
/// holds in custody; the two bumps complete the derivation of the record's
/// address and of its custody account's address.
#[derive(Clone, Copy, Debug, PartialEq, Eq)]
pub struct VaultState {
    pub user: Address,
    pub mint: Address,
    pub deposited: u64,
    pub bump: u8,
    pub bump_token_account: u8,
    pub _padding: [u8; 6],
}

impl VaultState {
    /// Bytes the storage engine allocates for a record: an 8-byte header and the payload.
    pub const SPACE: usize = 8 + 32 + 32 + 8 + 1 + 1 + 6;

    /// The record's payload: `user` at 0, `mint` at 32, `deposited`
    /// (little-endian) at 64, the two bumps at 72 and 73, padding at 74.
    pub open spec fn layout(self) -> Seq<u8> {
        self.user@ + self.mint@ + spec_u64_to_le_bytes(self.deposited) + seq![
            self.bump,
            self.bump_token_account,
        ] + self._padding@
    }

    /// A fresh record: nothing deposited, padding zeroed.
    pub fn new(user: Address, mint: Address, bump: u8, bump_token_account: u8) -> (r: VaultState)
        ensures
            r.user == user,
            r.mint == mint,
            r.deposited == 0,
            r.bump == bump,
            r.bump_token_account == bump_token_account,
            r._padding@ == seq![0u8, 0u8, 0u8, 0u8, 0u8, 0u8],
    {
        let r = VaultState { user, mint, deposited: 0, bump, bump_token_account, _padding: [0u8; 6] };
        assert(r._padding@ =~= seq![0u8, 0u8, 0u8, 0u8, 0u8, 0u8]);
        r
    }

    /// Writes the record's 80-byte payload.
    pub fn to_bytes(&self) -> (r: Vec<u8>)
        ensures
            r@ == self.layout(),
            r@.len() == RECORD_LEN,
    {
        proof {
            lemma_auto_spec_u64_to_from_le_bytes();
        }
        let mut out = self.user.to_vec();
        let mut mint = self.mint.to_vec();
        out.append(&mut mint);
        let mut deposited = u64_to_le_bytes(self.deposited);
        out.append(&mut deposited);
        out.push(self.bump);
        out.push(self.bump_token_account);
        let mut i: usize = 0;
        while i < 6
            invariant
                i <= 6,
                out@ =~= self.user@ + self.mint@ + spec_u64_to_le_bytes(self.deposited) + seq![
                    self.bump,
                    self.bump_token_account,
                ] + self._padding@.subrange(0, i as int),
            decreases 6 - i,
        {
            out.push(self._padding[i]);
            i = i + 1;
        }
        assert(self._padding@.subrange(0, 6) =~= self._padding@);
        out
    }

    /// Reads a record from its payload; `None` unless `data` is exactly 80 bytes.
    pub fn from_bytes(data: &[u8]) -> (r: Option<VaultState>)
        ensures
            r is Some <==> data@.len() == RECORD_LEN,
            r matches Some(s) ==> s.layout() == data@,
    {
        if data.len() != RECORD_LEN {
            return None;
        }
        proof {
            lemma_auto_spec_u64_to_from_le_bytes();
        }
        let user = Address::from_slice(data, 0);
        let mint = Address::from_slice(data, 32);
        let counter = slice_subrange(data, 64, 72);
        let deposited = u64_from_le_bytes(counter);
        let mut padding: [u8; 6] = [0u8; 6];
        let mut i: usize = 0;
        while i < 6
            invariant
                i <= 6,
                data@.len() == 80,
                data.len() == 80,
                forall|j: int| 0 <= j < i ==> padding@[j] == data@[74 + j],
            decreases 6 - i,
        {
            padding[i] = data[74 + i];
            i = i + 1;
        }
        let s = VaultState {
            user,
            mint,
            deposited,
            bump: data[72],
            bump_token_account: data[73],
            _padding: padding,
        };
        assert(counter@ == data@.subrange(64, 72));
        assert(spec_u64_to_le_bytes(deposited) == data@.subrange(64, 72));
        assert(padding@ =~= data@.subrange(74, 80));
        assert(s.layout() =~= data@);
        Some(s)
    }
}

/// The layout determines the record: two records with the same payload
/// bytes are the same record, so reading back what was written gives the
/// record that was written.
pub proof fn lemma_layout_injective(a: VaultState, b: VaultState)
    requires
        a.layout() == b.layout(),
    ensures
        a == b,
{
    broadcast use vstd::array::group_array_axioms;

    lemma_auto_spec_u64_to_from_le_bytes();
    let la = a.layout();
    let lb = b.layout();
    assert(a.user@ =~= la.subrange(0, 32));
    assert(b.user@ =~= lb.subrange(0, 32));
    assert(a.mint@ =~= la.subrange(32, 64));
    assert(b.mint@ =~= lb.subrange(32, 64));
    assert(spec_u64_to_le_bytes(a.deposited) =~= la.subrange(64, 72));
    assert(spec_u64_to_le_bytes(b.deposited) =~= lb.subrange(64, 72));
    assert(a._padding@ =~= la.subrange(74, 80));
    assert(b._padding@ =~= lb.subrange(74, 80));
    assert(la[72] == a.bump && lb[72] == b.bump);
    assert(la[73] == a.bump_token_account && lb[73] == b.bump_token_account);
    assert(a.user.bytes == b.user.bytes);
    assert(a.mint.bytes == b.mint.bytes);
    assert(a._padding == b._padding);
}

} // verus!
