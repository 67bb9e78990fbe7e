//! Program-derived addresses: the addresses the ledger computes from seed
//! bytes and a program's identity, and for which only that program can sign.

use anchor_lang::solana_program::pubkey::Pubkey;
use vstd::prelude::*;

verus! {

/// The address the ledger derives from `seeds` for the program at `program`,
/// with the bump seed that was found for it; `None` where the ledger finds no
/// such address.
pub uninterp spec fn program_address(seeds: Seq<Seq<u8>>, program: Seq<u8>) -> Option<
    (Seq<u8>, u8),
>;

/// Calls `Pubkey::try_find_program_address` of `solana_program`. The
/// contract claims only that what it returns is a function of the seeds and
/// the program's bytes, which `program_address` names: the search over bump
/// seeds and the hash behind it are the ledger's and are not restated here.
#[verifier::external_body]
pub(crate) fn find_program_address(seeds: &Vec<Vec<u8>>, program: &[u8; 32]) -> (found: Option<
    ([u8; 32], u8),
>)
    ensures
        found matches Some((address, bump)) ==> program_address(seeds.deep_view(), program@)
            == Some((address@, bump)),
        found is None ==> program_address(seeds.deep_view(), program@) is None,
{
    let parts: Vec<&[u8]> = seeds.iter().map(Vec::as_slice).collect();
    match Pubkey::try_find_program_address(&parts, &Pubkey::new_from_array(*program)) {
        Some((key, bump)) => Some((key.to_bytes(), bump)),
        None => None,
    }
}

} // verus!
