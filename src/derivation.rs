//! Program-derived addresses: the vault record lives at the address derived
//! from (`"vault"`, owner, mint), its custody token account at the address
//! derived from (`"vault_account"`, record address). Neither has a private
//! key; the program signs for them by handing the seeds and the bump back to
//! the runtime.
use vstd::prelude::*;

use anchor_lang::prelude::Pubkey;

use crate::address::Address;

verus! {

/// The address that `seeds` (the bump byte already among them) derive under
/// the program `program_id`, if they derive one.
pub uninterp spec fn program_address(seeds: Seq<Seq<u8>>, program_id: Seq<u8>) -> Option<Seq<u8>>;

/// The address and bump that the search from bump 255 downwards finds for
/// `seeds` under the program `program_id`, if it finds one.
pub uninterp spec fn found_program_address(seeds: Seq<Seq<u8>>, program_id: Seq<u8>) -> Option<(Seq<u8>, u8)>;

pub open spec fn address_view(r: Option<Address>) -> Option<Seq<u8>> {
    match r {
        Some(a) => Some(a@),
        None => None,
    }
}

pub open spec fn found_view(r: Option<(Address, u8)>) -> Option<(Seq<u8>, u8)> {
    match r {
        Some((a, bump)) => Some((a@, bump)),
        None => None,
    }
}

/// ASCII `"vault"`.
pub open spec fn vault_seed() -> Seq<u8> {
    seq![0x76u8, 0x61u8, 0x75u8, 0x6cu8, 0x74u8]
}

/// ASCII `"vault_account"`.
pub open spec fn vault_account_seed() -> Seq<u8> {
    seq![
        0x76u8, 0x61u8, 0x75u8, 0x6cu8, 0x74u8, 0x5fu8, 0x61u8,
        0x63u8, 0x63u8, 0x6fu8, 0x75u8, 0x6eu8, 0x74u8,
    ]
}

/// The seeds of the vault record of `owner` for the asset `mint`.
pub open spec fn vault_seeds(owner: Seq<u8>, mint: Seq<u8>) -> Seq<Seq<u8>> {
    seq![vault_seed(), owner, mint]
}

/// The seeds of the custody token account of the vault record at `vault`.
pub open spec fn custody_seeds(vault: Seq<u8>) -> Seq<Seq<u8>> {
    seq![vault_account_seed(), vault]
}

pub open spec fn with_bump(seeds: Seq<Seq<u8>>, bump: u8) -> Seq<Seq<u8>> {
    seeds.push(seq![bump])
}

/// Relies on `Pubkey::create_program_address` (solana-pubkey): the address
/// that the seeds derive under the program id, or an error where they name
/// no valid program address.
#[verifier::external_body]
fn create_address(seeds: &Vec<Vec<u8>>, program_id: &Address) -> (r: Option<Address>)
    ensures
        address_view(r) == program_address(seeds.deep_view(), program_id@),
{
    let refs: Vec<&[u8]> = seeds.iter().map(|s| s.as_slice()).collect();
    let program = Pubkey::new_from_array(program_id.bytes);
    Pubkey::create_program_address(&refs, &program).ok().map(|k| Address::new(k.to_bytes()))
}

/// Relies on `Pubkey::try_find_program_address` (solana-pubkey): it tries the
/// bumps from 255 down and returns the first address that
/// `create_program_address` gives for the seeds with that bump appended.
#[verifier::external_body]
fn find_address(seeds: &Vec<Vec<u8>>, program_id: &Address) -> (r: Option<(Address, u8)>)
    ensures
        found_view(r) == found_program_address(seeds.deep_view(), program_id@),
        r matches Some((a, bump)) ==> program_address(
            seeds.deep_view().push(seq![bump]),
            program_id@,
        ) == Some(a@),
{
    let refs: Vec<&[u8]> = seeds.iter().map(|s| s.as_slice()).collect();
    let program = Pubkey::new_from_array(program_id.bytes);
    Pubkey::try_find_program_address(&refs, &program).map(|(k, bump)| (Address::new(k.to_bytes()), bump))
}

pub fn vault_seed_bytes() -> (r: Vec<u8>)
    ensures
        r@ == vault_seed(),
{
    let r: Vec<u8> = vec![0x76u8, 0x61u8, 0x75u8, 0x6cu8, 0x74u8];
    assert(r@ =~= vault_seed());
    r
}

pub fn vault_account_seed_bytes() -> (r: Vec<u8>)
    ensures
        r@ == vault_account_seed(),
{
    let r: Vec<u8> = vec![
        0x76u8, 0x61u8, 0x75u8, 0x6cu8, 0x74u8, 0x5fu8, 0x61u8,
        0x63u8, 0x63u8, 0x6fu8, 0x75u8, 0x6eu8, 0x74u8,
    ];
    assert(r@ =~= vault_account_seed());
    r
}

proof fn lemma_bytes_deep_view(v: Vec<u8>)
    ensures
        v.deep_view() == v@,
{
    assert(v.deep_view() =~= v@);
}

/// The seed list of the vault record of `owner` for the asset `mint`.
pub fn vault_seed_list(owner: &Address, mint: &Address) -> (r: Vec<Vec<u8>>)
    ensures
        r.deep_view() == vault_seeds(owner@, mint@),
{
    let mut r: Vec<Vec<u8>> = Vec::new();
    r.push(vault_seed_bytes());
    r.push(owner.to_vec());
    r.push(mint.to_vec());
    proof {
        lemma_bytes_deep_view(r@[0]);
        lemma_bytes_deep_view(r@[1]);
        lemma_bytes_deep_view(r@[2]);
    }
    assert(r.deep_view() =~= vault_seeds(owner@, mint@));
    r
}

/// The seed list of the custody token account of the record at `vault`.
pub fn custody_seed_list(vault: &Address) -> (r: Vec<Vec<u8>>)
    ensures
        r.deep_view() == custody_seeds(vault@),
{
    let mut r: Vec<Vec<u8>> = Vec::new();
    r.push(vault_account_seed_bytes());
    r.push(vault.to_vec());
    proof {
        lemma_bytes_deep_view(r@[0]);
        lemma_bytes_deep_view(r@[1]);
    }
    assert(r.deep_view() =~= custody_seeds(vault@));
    r
}

/// Appends the one-byte bump seed to a seed list.
pub fn push_bump(seeds: &mut Vec<Vec<u8>>, bump: u8)
    ensures
        final(seeds).deep_view() == with_bump(old(seeds).deep_view(), bump),
{
    let b: Vec<u8> = vec![bump];
    assert(b@ =~= seq![bump]);
    seeds.push(b);
    proof {
        lemma_bytes_deep_view(b);
    }
    assert(final(seeds).deep_view() =~= with_bump(old(seeds).deep_view(), bump));
}

/// The seeds, bump included, with which the program signs for the vault
/// record of `owner` and `mint`.
pub fn vault_signer_seeds(owner: &Address, mint: &Address, bump: u8) -> (r: Vec<Vec<u8>>)
    ensures
        r.deep_view() == with_bump(vault_seeds(owner@, mint@), bump),
{
    let mut r = vault_seed_list(owner, mint);
    push_bump(&mut r, bump);
    r
}

/// Finds the vault record address of `owner` for `mint` and its bump.
pub fn find_vault_address(program_id: &Address, owner: &Address, mint: &Address) -> (r: Option<(Address, u8)>)
    ensures
        found_view(r) == found_program_address(vault_seeds(owner@, mint@), program_id@),
        r matches Some((a, bump)) ==> program_address(
            with_bump(vault_seeds(owner@, mint@), bump),
            program_id@,
        ) == Some(a@),
{
    let seeds = vault_seed_list(owner, mint);
    find_address(&seeds, program_id)
}

/// Finds the custody account address of the vault record at `vault` and its bump.
pub fn find_custody_address(program_id: &Address, vault: &Address) -> (r: Option<(Address, u8)>)
    ensures
        found_view(r) == found_program_address(custody_seeds(vault@), program_id@),
        r matches Some((a, bump)) ==> program_address(
            with_bump(custody_seeds(vault@), bump),
            program_id@,
        ) == Some(a@),
{
    let seeds = custody_seed_list(vault);
    find_address(&seeds, program_id)
}

/// Re-derives the vault record address of `owner` and `mint` from a stored bump.
pub fn vault_address(program_id: &Address, owner: &Address, mint: &Address, bump: u8) -> (r: Option<Address>)
    ensures
        address_view(r) == program_address(with_bump(vault_seeds(owner@, mint@), bump), program_id@),
{
    let seeds = vault_signer_seeds(owner, mint, bump);
    create_address(&seeds, program_id)
}

/// Re-derives the custody account address of the record at `vault` from a stored bump.
pub fn custody_address(program_id: &Address, vault: &Address, bump: u8) -> (r: Option<Address>)
    ensures
        address_view(r) == program_address(with_bump(custody_seeds(vault@), bump), program_id@),
{
    let mut seeds = custody_seed_list(vault);
    push_bump(&mut seeds, bump);
    create_address(&seeds, program_id)
}

/// Derivation is repeatable: two searches for the vault record address of the
/// same owner and mint, and two for the custody account of the same record,
/// give the same address and bump.
pub proof fn lemma_derivation_repeatable(
    program_id: Address,
    owner: Address,
    mint: Address,
    vault: Address,
    first_vault: Option<(Address, u8)>,
    second_vault: Option<(Address, u8)>,
    first_custody: Option<(Address, u8)>,
    second_custody: Option<(Address, u8)>,
)
    requires
        found_view(first_vault) == found_program_address(vault_seeds(owner@, mint@), program_id@),
        found_view(second_vault) == found_program_address(vault_seeds(owner@, mint@), program_id@),
        found_view(first_custody) == found_program_address(custody_seeds(vault@), program_id@),
        found_view(second_custody) == found_program_address(custody_seeds(vault@), program_id@),
    ensures
        found_view(first_vault) == found_view(second_vault),
        found_view(first_custody) == found_view(second_custody),
{
}

} // verus!
