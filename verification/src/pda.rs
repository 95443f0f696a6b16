use vstd::prelude::*;

use crate::addr::{clone_bytes, Address};
use crate::errors::MarketError;
use crate::programs::{
    edition_seed, listing_seed, metadata_program_id, metadata_seed, spec_edition_seed,
    spec_listing_seed, spec_metadata_program_id, spec_metadata_seed, spec_token_program_id,
};

verus! {

/// What program-derived-address search yields for a seed tuple under an
/// owning program: the 32-byte address and its bump, or nothing when no bump
/// in the 256-value search space gives a valid address (or a seed exceeds the
/// ledger's seed limits). The result is a function of the seeds and the
/// program alone, so every party recomputes the same address.
pub uninterp spec fn spec_find_program_address(seeds: Seq<Seq<u8>>, program: Seq<u8>) -> Option<
    (Seq<u8>, u8),
>;

/// The canonical associated token account address for an (owner, mint) pair
/// under a token program; a pure function of the three addresses.
pub uninterp spec fn spec_associated_token_address(
    wallet: Seq<u8>,
    mint: Seq<u8>,
    token_program: Seq<u8>,
) -> Seq<u8>;

/// Relies on solana_sdk's Pubkey::try_find_program_address: searches bump
/// values for a valid derived address. It is deterministic in (seeds,
/// program), returns a 32-byte address, and returns None rather than
/// panicking when the search fails or a seed is over the ledger's limits.
#[verifier::external_body]
fn find_program_address(seeds: &Vec<Vec<u8>>, program: &Address) -> (r: Option<(Address, u8)>)
    requires
        program.wf(),
    ensures
        match r {
            Some(p) => p.0.wf() && spec_find_program_address(seeds.deep_view(), program@)
                == Some((p.0@, p.1)),
            None => spec_find_program_address(seeds.deep_view(), program@) is None,
        },
{
    let seed_slices: Vec<&[u8]> = seeds.iter().map(|s| s.as_slice()).collect();
    let program_id = solana_sdk::pubkey::Pubkey::try_from(program.bytes.as_slice()).unwrap();
    solana_sdk::pubkey::Pubkey::try_find_program_address(&seed_slices, &program_id)
        .map(|(pk, bump)| (Address { bytes: pk.to_bytes().to_vec() }, bump))
}

/// Relies on spl_associated_token_account::get_associated_token_address: the
/// canonical associated account derivation for (owner, mint) under the SPL
/// token program. Deterministic in its arguments; 32-byte result. It would
/// panic only if no bump seed exists for the pair, which the ledger's design
/// treats as a statistically impossible, fatal configuration error.
#[verifier::external_body]
pub fn associated_token_address(wallet: &Address, mint: &Address) -> (r: Address)
    requires
        wallet.wf(),
        mint.wf(),
    ensures
        r.wf(),
        r@ == spec_associated_token_address(wallet@, mint@, spec_token_program_id()),
{
    let w = solana_sdk::pubkey::Pubkey::try_from(wallet.bytes.as_slice()).unwrap();
    let m = solana_sdk::pubkey::Pubkey::try_from(mint.bytes.as_slice()).unwrap();
    let a = spl_associated_token_account::get_associated_token_address(&w, &m);
    Address { bytes: a.to_bytes().to_vec() }
}

/// The seed tuple `["listing", mint]` of a listing address.
pub open spec fn spec_listing_seeds(mint: Seq<u8>) -> Seq<Seq<u8>> {
    seq![spec_listing_seed(), mint]
}

/// The seed tuple `["metadata", metadata_program, mint]` of a metadata
/// address.
pub open spec fn spec_metadata_seeds(mint: Seq<u8>) -> Seq<Seq<u8>> {
    seq![spec_metadata_seed(), spec_metadata_program_id(), mint]
}

/// The seed tuple `["metadata", metadata_program, mint, "edition"]` of a
/// master edition address.
pub open spec fn spec_edition_seeds(mint: Seq<u8>) -> Seq<Seq<u8>> {
    seq![spec_metadata_seed(), spec_metadata_program_id(), mint, spec_edition_seed()]
}

/// Derives the listing address for a mint under the escrow program.
pub fn derive_listing_address(mint: &Address, program: &Address) -> (r: Result<
    (Address, u8),
    MarketError,
>)
    requires
        mint.wf(),
        program.wf(),
    ensures
        match r {
            Ok(p) => p.0.wf() && spec_find_program_address(spec_listing_seeds(mint@), program@)
                == Some((p.0@, p.1)),
            Err(e) => e == MarketError::DerivationFailure && spec_find_program_address(
                spec_listing_seeds(mint@),
                program@,
            ) is None,
        },
{
    let mut seeds: Vec<Vec<u8>> = Vec::new();
    seeds.push(listing_seed());
    seeds.push(clone_bytes(&mint.bytes));
    assert(seeds.deep_view() =~~= spec_listing_seeds(mint@));
    match find_program_address(&seeds, program) {
        Some(p) => Ok(p),
        None => Err(MarketError::DerivationFailure),
    }
}

/// Derives the metadata address for a mint under the metadata program.
pub fn derive_metadata_address(mint: &Address) -> (r: Result<(Address, u8), MarketError>)
    requires
        mint.wf(),
    ensures
        match r {
            Ok(p) => p.0.wf() && spec_find_program_address(
                spec_metadata_seeds(mint@),
                spec_metadata_program_id(),
            ) == Some((p.0@, p.1)),
            Err(e) => e == MarketError::DerivationFailure && spec_find_program_address(
                spec_metadata_seeds(mint@),
                spec_metadata_program_id(),
            ) is None,
        },
{
    let program = metadata_program_id();
    let mut seeds: Vec<Vec<u8>> = Vec::new();
    seeds.push(metadata_seed());
    seeds.push(clone_bytes(&program.bytes));
    seeds.push(clone_bytes(&mint.bytes));
    assert(seeds.deep_view() =~~= spec_metadata_seeds(mint@));
    match find_program_address(&seeds, &program) {
        Some(p) => Ok(p),
        None => Err(MarketError::DerivationFailure),
    }
}

/// Derives the master edition address for a mint under the metadata program.
pub fn derive_master_edition_address(mint: &Address) -> (r: Result<(Address, u8), MarketError>)
    requires
        mint.wf(),
    ensures
        match r {
            Ok(p) => p.0.wf() && spec_find_program_address(
                spec_edition_seeds(mint@),
                spec_metadata_program_id(),
            ) == Some((p.0@, p.1)),
            Err(e) => e == MarketError::DerivationFailure && spec_find_program_address(
                spec_edition_seeds(mint@),
                spec_metadata_program_id(),
            ) is None,
        },
{
    let program = metadata_program_id();
    let mut seeds: Vec<Vec<u8>> = Vec::new();
    seeds.push(metadata_seed());
    seeds.push(clone_bytes(&program.bytes));
    seeds.push(clone_bytes(&mint.bytes));
    seeds.push(edition_seed());
    assert(seeds.deep_view() =~~= spec_edition_seeds(mint@));
    match find_program_address(&seeds, &program) {
        Some(p) => Ok(p),
        None => Err(MarketError::DerivationFailure),
    }
}

/// Derivation is deterministic: identical seed tuples under identical
/// programs always yield the identical address and bump, so the seller, the
/// buyer, and the off-chain service all recompute the same address.
pub proof fn lemma_derivation_deterministic(
    seeds1: Seq<Seq<u8>>,
    program1: Seq<u8>,
    seeds2: Seq<Seq<u8>>,
    program2: Seq<u8>,
)
    requires
        seeds1 == seeds2,
        program1 == program2,
    ensures
        spec_find_program_address(seeds1, program1) == spec_find_program_address(seeds2, program2),
{
}

/// Listing derivation is injective at the seed level: two distinct mints
/// never present the same seed tuple, so no two mints can share a listing
/// address through the seed space (collisions could only come from the
/// underlying hash itself).
pub proof fn lemma_listing_seeds_injective(mint1: Seq<u8>, mint2: Seq<u8>)
    requires
        mint1 != mint2,
    ensures
        spec_listing_seeds(mint1) != spec_listing_seeds(mint2),
{
    assert(spec_listing_seeds(mint1)[1] == mint1);
    assert(spec_listing_seeds(mint2)[1] == mint2);
}

} // verus!
