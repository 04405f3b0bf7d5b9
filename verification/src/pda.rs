//! Program-derived addresses: the address derivations of `anchor_lang`
//! (`Pubkey::create_program_address`, `Pubkey::try_find_program_address`)
//! and of `anchor_spl` (`get_associated_token_address_with_program_id`).
//! Each is a hash of its arguments, so each result gets a name.
use vstd::prelude::*;
use anchor_lang::prelude::Pubkey as ChainPubkey;
use crate::pubkey::{Pubkey, ASSOCIATED_TOKEN_PROGRAM_ID};

verus! {

/// The byte strings of a list of seeds.
pub open spec fn seeds_view(seeds: Seq<Vec<u8>>) -> Seq<Seq<u8>> {
    seeds.map_values(|s: Vec<u8>| s@)
}

/// The address that `create_program_address` derives from `seeds` (the last
/// of which is usually a bump) under `program_id`, or `None` where it
/// refuses them (too many or too long seeds, or a hash on the curve).
pub uninterp spec fn derived_address(seeds: Seq<Seq<u8>>, program_id: Seq<u8>) -> Option<Seq<u8>>;

/// The address and bump that `try_find_program_address` finds for `seeds`
/// under `program_id`, or `None` where no bump works.
pub uninterp spec fn canonical_address(seeds: Seq<Seq<u8>>, program_id: Seq<u8>) -> Option<(Seq<u8>, u8)>;

/// The seeds of an associated token account: wallet, token program, mint.
pub open spec fn ata_seeds(wallet: Pubkey, mint: Pubkey, token_program: Pubkey) -> Seq<Seq<u8>> {
    seq![wallet.bytes@, token_program.bytes@, mint.bytes@]
}

/// The associated token account of `wallet` for `mint` under `token_program`,
/// where it exists.
pub open spec fn spec_associated_token_address(wallet: Pubkey, mint: Pubkey, token_program: Pubkey) -> Option<Seq<u8>> {
    match canonical_address(ata_seeds(wallet, mint, token_program), ASSOCIATED_TOKEN_PROGRAM_ID@) {
        Some(found) => Some(found.0),
        None => None,
    }
}

/// Calls `Pubkey::create_program_address`. Claims only that the result is
/// `derived_address` of the seeds and program id: an address where that is
/// `Some`, nothing where it is `None`.
#[verifier::external_body]
pub(crate) fn create_program_address(seeds: &Vec<Vec<u8>>, program_id: &Pubkey) -> (r: Option<Pubkey>)
    ensures
        match r {
            Some(k) => derived_address(seeds_view(seeds@), program_id.bytes@) == Some(k.bytes@),
            None => derived_address(seeds_view(seeds@), program_id.bytes@) is None,
        },
{
    let refs: Vec<&[u8]> = seeds.iter().map(|s| s.as_slice()).collect();
    ChainPubkey::create_program_address(&refs, &ChainPubkey::new_from_array(program_id.bytes))
        .ok()
        .map(|k| Pubkey { bytes: k.to_bytes() })
}

/// Calls `Pubkey::try_find_program_address`. Claims that the result is
/// `canonical_address` of the seeds and program id, and, as that function's
/// documentation and source show (it returns the first bump for which
/// `create_program_address` succeeds), that the found address is the one
/// `create_program_address` derives from the seeds followed by the bump.
#[verifier::external_body]
pub(crate) fn find_program_address(seeds: &Vec<Vec<u8>>, program_id: &Pubkey) -> (r: Option<(Pubkey, u8)>)
    ensures
        match r {
            Some(found) => {
                &&& canonical_address(seeds_view(seeds@), program_id.bytes@) == Some((found.0.bytes@, found.1))
                &&& derived_address(seeds_view(seeds@).push(seq![found.1]), program_id.bytes@) == Some(found.0.bytes@)
            },
            None => canonical_address(seeds_view(seeds@), program_id.bytes@) is None,
        },
{
    let refs: Vec<&[u8]> = seeds.iter().map(|s| s.as_slice()).collect();
    ChainPubkey::try_find_program_address(&refs, &ChainPubkey::new_from_array(program_id.bytes))
        .map(|(k, bump)| (Pubkey { bytes: k.to_bytes() }, bump))
}

/// Calls `get_associated_token_address_with_program_id`, whose source is
/// `find_program_address(&[wallet, token_program, mint], &ATA_PROGRAM_ID).0`.
/// That call panics where no bump works, so `requires` leaves those inputs out.
#[verifier::external_body]
pub(crate) fn associated_token_address(wallet: &Pubkey, mint: &Pubkey, token_program: &Pubkey) -> (r: Pubkey)
    requires
        spec_associated_token_address(*wallet, *mint, *token_program) is Some,
    ensures
        spec_associated_token_address(*wallet, *mint, *token_program) == Some(r.bytes@),
{
    let k = anchor_spl::associated_token::get_associated_token_address_with_program_id(
        &ChainPubkey::new_from_array(wallet.bytes),
        &ChainPubkey::new_from_array(mint.bytes),
        &ChainPubkey::new_from_array(token_program.bytes),
    );
    Pubkey { bytes: k.to_bytes() }
}

} // verus!
