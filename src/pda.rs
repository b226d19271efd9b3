use vstd::prelude::*;
use crate::address::Address;
use crate::state::{
    config_seed, config_seed_bytes, freeze_metas_seed, freeze_metas_seed_bytes, guard_seed,
    guard_seed_bytes, thaw_metas_seed, thaw_metas_seed_bytes,
};

verus! {

/// What the runtime's program-address search returns for `seeds` under
/// `program`: the first off-curve address, trying bumps from 255 down, with
/// its bump; none where no bump works or the seeds are out of bounds.
pub uninterp spec fn program_address(seeds: Seq<Seq<u8>>, program: Seq<u8>) -> Option<(Seq<u8>, u8)>;

/// The view of a list of seeds.
pub open spec fn seeds_view(seeds: Seq<Vec<u8>>) -> Seq<Seq<u8>> {
    seeds.map_values(|s: Vec<u8>| s@)
}

/// The view of a derivation result.
pub open spec fn found_view(r: Option<(Address, u8)>) -> Option<(Seq<u8>, u8)> {
    match r {
        Some((a, b)) => Some((a@, b)),
        None => None,
    }
}

/// Relies on solana_pubkey::Pubkey::try_find_program_address: a hash of the
/// seeds and the program id, a function of them alone; `None` where there
/// are 16 seeds or more, or a seed longer than 32 bytes.
#[verifier::external_body]
pub(crate) fn find_program_address(seeds: &Vec<Vec<u8>>, program: &Address) -> (r: Option<(Address, u8)>)
    ensures
        found_view(r) == program_address(seeds_view(seeds@), program@),
        seeds@.len() >= 16 ==> r is None,
{
    let parts: Vec<&[u8]> = seeds.iter().map(|s| s.as_slice()).collect();
    let id = solana_pubkey::Pubkey::new_from_array(program.bytes);
    solana_pubkey::Pubkey::try_find_program_address(&parts, &id)
        .map(|(a, b)| (Address { bytes: a.to_bytes() }, b))
}


/// Derives the address, and its bump, for `seeds` under `program`; `None`
/// where no bump gives an address or the seeds are out of bounds.
pub fn derive_program_address(seeds: &Vec<Vec<u8>>, program: &Address) -> (r: Option<(Address, u8)>)
    ensures
        found_view(r) == program_address(seeds_view(seeds@), program@),
{
    find_program_address(seeds, program)
}

/// The configuration record's address for `mint`, and its bump.
pub open spec fn config_address_of(mint: Seq<u8>, program: Seq<u8>) -> Option<(Seq<u8>, u8)> {
    program_address(seq![config_seed(), mint], program)
}

/// The guard record's address for `token_account`, and its bump.
pub open spec fn guard_address_of(token_account: Seq<u8>, program: Seq<u8>) -> Option<(Seq<u8>, u8)> {
    program_address(seq![guard_seed(), token_account], program)
}

/// The address of the descriptor list that `gate` keeps for `mint`, for
/// thaw or for freeze.
pub open spec fn metas_address_of(mint: Seq<u8>, gate: Seq<u8>, thaw: bool) -> Option<(Seq<u8>, u8)> {
    program_address(seq![if thaw { thaw_metas_seed() } else { freeze_metas_seed() }, mint], gate)
}

fn derive_with_key(tag: Vec<u8>, key: &Address, program: &Address) -> (r: Option<(Address, u8)>)
    ensures
        found_view(r) == program_address(seq![tag@, key@], program@),
{
    let mut seeds: Vec<Vec<u8>> = Vec::new();
    seeds.push(tag);
    seeds.push(key.to_vec());
    assert(seeds_view(seeds@) =~= seq![tag@, key@]);
    find_program_address(&seeds, program)
}

/// Derives the configuration record's address for `mint` under `program`.
pub fn find_config_address(mint: &Address, program: &Address) -> (r: Option<(Address, u8)>)
    ensures
        found_view(r) == config_address_of(mint@, program@),
{
    derive_with_key(config_seed_bytes(), mint, program)
}

/// Derives the guard record's address for `token_account` under `program`.
pub fn find_guard_address(token_account: &Address, program: &Address) -> (r: Option<(Address, u8)>)
    ensures
        found_view(r) == guard_address_of(token_account@, program@),
{
    derive_with_key(guard_seed_bytes(), token_account, program)
}

/// Derives the address of the descriptor list that `gate` keeps for `mint`.
pub fn find_metas_address(mint: &Address, gate: &Address, thaw: bool) -> (r: Option<(Address, u8)>)
    ensures
        found_view(r) == metas_address_of(mint@, gate@, thaw),
{
    let tag = if thaw { thaw_metas_seed_bytes() } else { freeze_metas_seed_bytes() };
    derive_with_key(tag, mint, gate)
}

} // verus!
