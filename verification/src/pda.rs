//! Deterministic derivation of a record's address.
//!
//! The derivation itself is a hash computed by the ledger SDK; the
//! library names its outcome and components and trusts the SDK for
//! them.

use vstd::prelude::*;

use crate::account::Pubkey;

verus! {

/// The fixed seed string every record address derivation opens with.
pub open spec fn metadata_seed() -> Seq<u8> {
    seq![109u8, 101u8, 116u8, 97u8, 100u8, 97u8, 116u8, 97u8]
}

/// The canonical derived address for these seeds under this program:
/// what `find_program_address` returns, a pure function of both.
pub uninterp spec fn pda_address(seeds: Seq<Seq<u8>>, program_id: Seq<u8>) -> Seq<u8>;

/// The bump value belonging to that canonical derived address.
pub uninterp spec fn pda_bump(seeds: Seq<Seq<u8>>, program_id: Seq<u8>) -> u8;

/// Whether the search finds any valid derived address for these seeds
/// under this program: like the address itself, a pure function of
/// both, since the search walks the bump values deterministically.
pub uninterp spec fn pda_found(seeds: Seq<Seq<u8>>, program_id: Seq<u8>) -> bool;

/// Relies on `solana_pubkey::Pubkey::try_find_program_address` with the
/// seeds `["metadata", mint]`: the search is a deterministic function
/// of the seeds and the program id, and it returns `None` instead of
/// panicking in the statistically improbable event that no bump yields
/// a valid derived address.
#[verifier::external_body]
pub fn derive_metadata_pda(mint: &Pubkey, program_id: &Pubkey) -> (r: Option<(Pubkey, u8)>)
    ensures
        r is Some <==> pda_found(seq![metadata_seed(), mint@], program_id@),
        r matches Some(p) ==> {
            &&& p.0@ == pda_address(seq![metadata_seed(), mint@], program_id@)
            &&& p.1 == pda_bump(seq![metadata_seed(), mint@], program_id@)
        },
{
    let pid = solana_pubkey::Pubkey::new_from_array(program_id.bytes);
    let (address, bump) = solana_pubkey::Pubkey::try_find_program_address(
        &[b"metadata", &mint.bytes],
        &pid,
    )?;
    Some((Pubkey { bytes: *address.as_array() }, bump))
}

/// Relies on `solana_pubkey::Pubkey::try_find_program_address` with the
/// seeds `["metadata", program_id, mint]`: the search is a
/// deterministic function of the seeds and the program id, and it
/// returns `None` instead of panicking when no bump yields a valid
/// derived address.
#[verifier::external_body]
pub(crate) fn find_metadata_address(program_id: &Pubkey, mint: &Pubkey) -> (r: Option<(Pubkey, u8)>)
    ensures
        r is Some <==> pda_found(seq![metadata_seed(), program_id@, mint@], program_id@),
        r matches Some(p) ==> {
            &&& p.0@ == pda_address(seq![metadata_seed(), program_id@, mint@], program_id@)
            &&& p.1 == pda_bump(seq![metadata_seed(), program_id@, mint@], program_id@)
        },
{
    let pid = solana_pubkey::Pubkey::new_from_array(program_id.bytes);
    let (address, bump) = solana_pubkey::Pubkey::try_find_program_address(
        &[b"metadata", &program_id.bytes, &mint.bytes],
        &pid,
    )?;
    Some((Pubkey { bytes: *address.as_array() }, bump))
}

} // verus!
