use vstd::prelude::*;

verus! {

/// A 32-byte ledger address: an account key, a mint key or a program id.
#[derive(Clone, Copy, Debug)]
pub struct Address {
    pub bytes: [u8; 32],
}

impl View for Address {
    type V = Seq<u8>;

    open spec fn view(&self) -> Seq<u8> {
        self.bytes@
    }
}

impl Address {
    pub fn new(bytes: [u8; 32]) -> (r: Address)
        ensures
            r.bytes == bytes,
    {
        Address { bytes }
    }

    /// Builds an address from the 32 bytes of `data` that start at `offset`.
    pub fn from_slice(data: &[u8], offset: usize) -> (r: Address)
        requires
            offset + 32 <= data@.len(),
        ensures
            r@ == data@.subrange(offset as int, offset + 32),
    {
        let mut bytes: [u8; 32] = [0u8; 32];
        let mut i: usize = 0;
        while i < 32
            invariant
                i <= 32,
                offset + 32 <= data.len(),
                forall|j: int| 0 <= j < i ==> bytes@[j] == data@[offset + j],
            decreases 32 - i,
        {
            bytes[i] = data[offset + i];
            i = i + 1;
        }
        assert(bytes@ =~= data@.subrange(offset as int, offset + 32));
        Address { bytes }
    }

    /// The address's bytes, as a seed for address derivation.
    pub fn to_vec(&self) -> (r: Vec<u8>)
        ensures
            r@ == self@,
    {
        let mut out: Vec<u8> = Vec::with_capacity(32);
        let mut i: usize = 0;
        while i < 32
            invariant
                i <= 32,
                out@ =~= self@.subrange(0, i as int),
            decreases 32 - i,
        {
            out.push(self.bytes[i]);
            i = i + 1;
        }
        out
    }
}

impl PartialEq for Address {
    fn eq(&self, other: &Address) -> (r: bool)
        ensures
            r == (self@ == other@),
    {
        let mut i: usize = 0;
        while i < 32
            invariant
                i <= 32,
                forall|j: int| 0 <= j < i ==> self@[j] == other@[j],
            decreases 32 - i,
        {
            if self.bytes[i] != other.bytes[i] {
                return false;
            }
            i = i + 1;
        }
        assert(self@ =~= other@);
        true
    }
}

impl vstd::std_specs::cmp::PartialEqSpecImpl for Address {
    open spec fn obeys_eq_spec() -> bool {
        true
    }

    open spec fn eq_spec(&self, other: &Address) -> bool {
        self@ == other@
    }
}

impl Eq for Address {
}

} // verus!
