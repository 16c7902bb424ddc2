//! Addresses without a private key, derived from a tag and identities: the
//! authority that holds a campaign's pool, the place of an asset's receipt,
//! and the place of an asset's metadata.

use vstd::prelude::*;
use vstd::slice::slice_to_vec;
use vstd::string::StringSliceAdditionalSpecFns;
use solana_program::pubkey::Pubkey;
use crate::address::Address;
use crate::programs::{metadata_program, metadata_program_id};
use crate::utils::PREFIX;

verus! {

/// The tag under which an asset's receipt is placed.
pub const SEED_STR: &'static str = "claimed";

/// The tag under which the registry places an asset's metadata.
pub const METADATA_PREFIX: &'static str = "metadata";

/// The address, and the disambiguation byte found for it, that the run-time
/// derives for a program from a list of seeds; `None` where it derives none.
pub uninterp spec fn program_address(seeds: Seq<Seq<u8>>, program_id: Address) -> Option<
    (Address, u8),
>;

/// The seeds as sequences of bytes.
pub open spec fn seed_bytes(seeds: Seq<Vec<u8>>) -> Seq<Seq<u8>> {
    seeds.map_values(|seed: Vec<u8>| seed@)
}

/// `Pubkey::try_find_program_address` of solana_program: the derived
/// address and its disambiguation byte are a function of the seeds and the
/// program's address alone.
#[verifier::external_body]
pub(crate) fn try_find_program_address(seeds: &Vec<Vec<u8>>, program_id: &Address) -> (found:
    Option<(Address, u8)>)
    ensures
        found == program_address(seed_bytes(seeds@), *program_id),
{
    let parts: Vec<&[u8]> = seeds.iter().map(|seed| seed.as_slice()).collect();
    Pubkey::try_find_program_address(&parts, &Pubkey::new_from_array(program_id.bytes)).map(
        |(key, bump)| (Address { bytes: key.to_bytes() }, bump),
    )
}

/// The address that a derivation gave.
pub open spec fn address_of(found: Option<(Address, u8)>) -> Address
    recommends
        found is Some,
{
    match found {
        Some((address, _)) => address,
        None => arbitrary(),
    }
}

/// The disambiguation byte that a derivation gave.
pub open spec fn bump_of(found: Option<(Address, u8)>) -> u8
    recommends
        found is Some,
{
    match found {
        Some((_, bump)) => bump,
        None => arbitrary(),
    }
}

/// The seeds from which a campaign's custody authority is derived.
pub open spec fn custody_seeds(state_key: Address) -> Seq<Seq<u8>> {
    seq![PREFIX.spec_bytes(), state_key@]
}

/// The seeds from which the place of an asset's receipt is derived.
pub open spec fn receipt_seeds(mint: Address) -> Seq<Seq<u8>> {
    seq![SEED_STR.spec_bytes(), mint@]
}

/// The authority that holds the pool of the campaign whose state lives at
/// `state_key`, with its disambiguation byte.
pub open spec fn custody_authority(state_key: Address, program_id: Address) -> Option<
    (Address, u8),
> {
    program_address(custody_seeds(state_key), program_id)
}

/// The place of the receipt of the asset of type `mint`, with its
/// disambiguation byte.
pub open spec fn receipt_address(mint: Address, program_id: Address) -> Option<(Address, u8)> {
    program_address(receipt_seeds(mint), program_id)
}

/// The place where the registry keeps the metadata of the asset of type
/// `mint`, with its disambiguation byte.
pub open spec fn metadata_address(mint: Address) -> Option<(Address, u8)> {
    program_address(
        seq![METADATA_PREFIX.spec_bytes(), metadata_program()@, mint@],
        metadata_program(),
    )
}

/// Derives the authority that holds a campaign's pool.
pub fn find_custody_authority(state_key: &Address, program_id: &Address) -> (found: Option<
    (Address, u8),
>)
    ensures
        found == custody_authority(*state_key, *program_id),
{
    let mut seeds: Vec<Vec<u8>> = Vec::new();
    seeds.push(slice_to_vec(PREFIX.as_bytes()));
    seeds.push(state_key.to_vec());
    assert(seed_bytes(seeds@) =~= custody_seeds(*state_key));
    try_find_program_address(&seeds, program_id)
}

/// Derives the place of an asset's receipt.
pub fn find_receipt_address(mint: &Address, program_id: &Address) -> (found: Option<
    (Address, u8),
>)
    ensures
        found == receipt_address(*mint, *program_id),
{
    let mut seeds: Vec<Vec<u8>> = Vec::new();
    seeds.push(slice_to_vec(SEED_STR.as_bytes()));
    seeds.push(mint.to_vec());
    assert(seed_bytes(seeds@) =~= receipt_seeds(*mint));
    try_find_program_address(&seeds, program_id)
}

/// Derives the place of an asset's metadata.
pub fn find_metadata_address(mint: &Address) -> (found: Option<(Address, u8)>)
    ensures
        found == metadata_address(*mint),
{
    let registry = metadata_program_id();
    let mut seeds: Vec<Vec<u8>> = Vec::new();
    seeds.push(slice_to_vec(METADATA_PREFIX.as_bytes()));
    seeds.push(registry.to_vec());
    seeds.push(mint.to_vec());
    assert(seed_bytes(seeds@) =~= seq![
        METADATA_PREFIX.spec_bytes(),
        metadata_program()@,
        mint@,
    ]);
    try_find_program_address(&seeds, &registry)
}

/// The seeds with which the distributor signs for a derived address: the
/// seeds it was derived from and, last, its disambiguation byte.
pub open spec fn signing_seeds(seeds: Seq<Seq<u8>>, bump: u8) -> Seq<Seq<u8>> {
    seeds.push(seq![bump])
}

/// The seeds with which the distributor signs for a campaign's custody
/// authority.
pub fn custody_signer_seeds(state_key: &Address, bump: u8) -> (seeds: Vec<Vec<u8>>)
    ensures
        seed_bytes(seeds@) == signing_seeds(custody_seeds(*state_key), bump),
{
    let mut seeds: Vec<Vec<u8>> = Vec::new();
    seeds.push(slice_to_vec(PREFIX.as_bytes()));
    seeds.push(state_key.to_vec());
    let mut last: Vec<u8> = Vec::new();
    last.push(bump);
    seeds.push(last);
    assert(seed_bytes(seeds@) =~= signing_seeds(custody_seeds(*state_key), bump));
    seeds
}

/// The seeds with which the distributor signs for an asset's receipt.
pub fn receipt_signer_seeds(mint: &Address, bump: u8) -> (seeds: Vec<Vec<u8>>)
    ensures
        seed_bytes(seeds@) == signing_seeds(receipt_seeds(*mint), bump),
{
    let mut seeds: Vec<Vec<u8>> = Vec::new();
    seeds.push(slice_to_vec(SEED_STR.as_bytes()));
    seeds.push(mint.to_vec());
    let mut last: Vec<u8> = Vec::new();
    last.push(bump);
    seeds.push(last);
    assert(seed_bytes(seeds@) =~= signing_seeds(receipt_seeds(*mint), bump));
    seeds
}

/// Two derivations from the same tag and the same identities give the same
/// address and the same disambiguation byte: what is derived depends on
/// nothing else.
pub proof fn derivation_is_deterministic(
    first_identity: Address,
    first_program: Address,
    second_identity: Address,
    second_program: Address,
)
    requires
        first_identity@ == second_identity@,
        first_program@ == second_program@,
    ensures
        receipt_address(first_identity, first_program) == receipt_address(
            second_identity,
            second_program,
        ),
        custody_authority(first_identity, first_program) == custody_authority(
            second_identity,
            second_program,
        ),
        metadata_address(first_identity) == metadata_address(second_identity),
{
    assert(first_identity.bytes == second_identity.bytes);
    assert(first_program.bytes == second_program.bytes);
}

} // verus!
