use anchor_lang::prelude::Pubkey;
use vstd::prelude::*;

verus! {

/// Most seeds an address may be derived from, the bump seed included.
pub const MAX_SEEDS: usize = 16;

/// Longest seed an address may be derived from.
pub const MAX_SEED_LEN: usize = 32;

/// The program derived address (and its bump seed) that a search over
/// `seeds` for `program_id` finds, or `None` when there is none.
pub uninterp spec fn program_address(seeds: Seq<Seq<u8>>, program_id: Seq<u8>) -> Option<(Seq<u8>, u8)>;

/// Whether some seed is longer than an address derivation accepts.
pub open spec fn has_oversized_seed(seeds: Seq<Seq<u8>>) -> bool {
    exists|i: int| 0 <= i < seeds.len() && #[trigger] seeds[i].len() > MAX_SEED_LEN
}

/// Searches for the program derived address of `seeds` under `program_id`
/// with `Pubkey::try_find_program_address` of anchor_lang (solana_program).
/// The contract claims that the result is `program_address` applied to the
/// seeds and the program id, and that there is no address when there are too
/// many seeds or one is too long, as the function's documentation states.
/// Which address and bump the search finds (a hash over the seeds, a bump
/// and the program id that lies off the ed25519 curve) is left to the name.
#[verifier::external_body]
pub(crate) fn try_find_program_address(seeds: &Vec<Vec<u8>>, program_id: &[u8; 32]) -> (r: Option<([u8; 32], u8)>)
    ensures
        r is Some <==> program_address(seeds.deep_view(), program_id@) is Some,
        r matches Some((k, b)) ==> program_address(seeds.deep_view(), program_id@) == Some((k@, b)),
        seeds.len() >= MAX_SEEDS || has_oversized_seed(seeds.deep_view()) ==> r is None,
{
    let refs: Vec<&[u8]> = seeds.iter().map(|s| s.as_slice()).collect();
    Pubkey::try_find_program_address(&refs, &Pubkey::new_from_array(*program_id))
        .map(|(k, b)| (k.to_bytes(), b))
}

} // verus!
