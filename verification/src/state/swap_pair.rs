use vstd::prelude::*;
use vstd::slice::slice_to_vec;

use crate::error::ErrorCode;
use crate::state::constants::POOL_SEED;
use crate::state::pda::{program_address, try_find_program_address};

verus! {

/// Result of a swap: how much of each side changed hands.
pub struct SwapResult {
    pub source_amount_swapped: u128,
    pub destination_amount_swapped: u128,
}

/// The recorded state of one launch pool. Account addresses are kept as the
/// 32 bytes of their public keys.
#[derive(Clone, Copy, Debug, PartialEq, Eq)]
pub struct SwapPair {
    pub token_a_account: [u8; 32],
    pub token_b_account: [u8; 32],
    pub token_a_mint: [u8; 32],
    pub token_b_mint: [u8; 32],
    pub total_supply: u64,
    pub reserve_token: u64,
    pub reserve_sol: u64,
}

/// The seeds with which the pool authority signs: the pool seed, the traded
/// token's mint and the bump seed.
#[derive(Clone, Copy, Debug, PartialEq, Eq)]
pub struct SignerSeeds(pub [u8; 32], pub [u8; 1]);

/// The seeds of the pool authority's address for a mint (without the bump).
pub open spec fn pool_seeds(mint: Seq<u8>) -> Seq<Seq<u8>> {
    seq![POOL_SEED@, mint]
}

/// The pool authority's address and bump for a mint under a program, if any.
pub open spec fn pool_address(mint: [u8; 32], program_id: [u8; 32]) -> Option<(Seq<u8>, u8)> {
    program_address(pool_seeds(mint@), program_id@)
}

/// What checking a found authority address against the given one yields.
pub open spec fn authority_check(mint: [u8; 32], found: Seq<u8>, bump: u8, pda: Seq<u8>) -> Result<SignerSeeds, ErrorCode> {
    if found == pda {
        Ok(SignerSeeds(mint, [bump]))
    } else {
        Err(ErrorCode::InvalidArgument)
    }
}

/// The seeds (bump included) that a `SignerSeeds` stands for.
pub open spec fn seed_list(s: SignerSeeds) -> Seq<Seq<u8>> {
    seq![POOL_SEED@, s.0@, s.1@]
}

/// Whether two public keys are the same.
pub fn same_key(a: &[u8; 32], b: &[u8; 32]) -> (r: bool)
    ensures
        r <==> a@ == b@,
        r <==> *a == *b,
{
    proof { broadcast use vstd::array::group_array_axioms; }
    let mut i: usize = 0;
    while i < 32
        invariant
            i <= 32,
            a@.len() == 32,
            b@.len() == 32,
            forall|j: int| 0 <= j < i ==> a@[j] == b@[j],
        decreases 32 - i,
    {
        if a[i] != b[i] {
            assert(a@[i as int] != b@[i as int]);
            return false;
        }
        i = i + 1;
    }
    assert(a@ =~= b@);
    assert(*a =~= *b);
    true
}

impl SignerSeeds {
    /// The three seeds, in the order in which the authority signs with them.
    pub fn value(&self) -> (r: [&[u8]; 3])
        ensures
            r@.len() == 3,
            r@[0]@ == POOL_SEED@,
            r@[1]@ == self.0@,
            r@[2]@ == self.1@,
    {
        let p: &'static [u8; 4] = &POOL_SEED;
        [p.as_slice(), self.0.as_slice(), self.1.as_slice()]
    }
}

impl SwapPair {
    /// Checks a found authority address and bump against the authority
    /// account that was passed in, and gives the signer seeds when they match.
    pub fn seeds_for_authority(&self, found: ([u8; 32], u8), pda: &[u8; 32]) -> (r: Result<SignerSeeds, ErrorCode>)
        ensures
            r == authority_check(self.token_b_mint, found.0@, found.1, pda@),
            found.0 == *pda ==> r == Ok::<SignerSeeds, ErrorCode>(SignerSeeds(self.token_b_mint, [found.1])),
            found.0 != *pda ==> r == Err::<SignerSeeds, ErrorCode>(ErrorCode::InvalidArgument),
    {
        if !same_key(&found.0, pda) {
            return Err(ErrorCode::InvalidArgument);
        }
        Ok(SignerSeeds(self.token_b_mint, [found.1]))
    }

    /// Derives the pool authority for this pair's mint under `program_id`, and
    /// gives its signer seeds when `pda` is that authority.
    pub fn signer_seeds(&self, pda: &[u8; 32], program_id: &[u8; 32]) -> (r: Result<SignerSeeds, ErrorCode>)
        requires
            pool_address(self.token_b_mint, *program_id) is Some,
        ensures
            ({
                let (k, b) = pool_address(self.token_b_mint, *program_id).unwrap();
                r == authority_check(self.token_b_mint, k, b, pda@)
            }),
            // The same, stated directly: the authority is derived from the
            // seeds "pool" and the pair's mint, unchanged.
            ({
                let (k, b) = program_address(seq![seq![112u8, 111u8, 111u8, 108u8], self.token_b_mint@], program_id@).unwrap();
                &&& k == pda@ ==> r == Ok::<SignerSeeds, ErrorCode>(SignerSeeds(self.token_b_mint, [b]))
                &&& k != pda@ ==> r == Err::<SignerSeeds, ErrorCode>(ErrorCode::InvalidArgument)
            }),
    {
        let seeds = self.pool_seed_bytes();
        match try_find_program_address(&seeds, program_id) {
            Some(found) => self.seeds_for_authority(found, pda),
            None => Err(ErrorCode::InvalidArgument),
        }
    }

    /// Like `signer_seeds`, but gives `None` where no authority address exists
    /// for this pair's mint (where deriving it would abort).
    pub fn try_signer_seeds(&self, pda: &[u8; 32], program_id: &[u8; 32]) -> (r: Option<Result<SignerSeeds, ErrorCode>>)
        ensures
            match pool_address(self.token_b_mint, *program_id) {
                None => r is None,
                Some((k, b)) => r == Some(authority_check(self.token_b_mint, k, b, pda@)),
            },
    {
        let seeds = self.pool_seed_bytes();
        match try_find_program_address(&seeds, program_id) {
            Some(_) => Some(self.signer_seeds(pda, program_id)),
            None => None,
        }
    }

    fn pool_seed_bytes(&self) -> (r: Vec<Vec<u8>>)
        ensures
            r.deep_view() =~= pool_seeds(self.token_b_mint@),
            r.deep_view() =~= seq![seq![112u8, 111u8, 111u8, 108u8], self.token_b_mint@],
    {
        let mut seeds: Vec<Vec<u8>> = Vec::new();
        seeds.push(slice_to_vec(POOL_SEED.as_slice()));
        seeds.push(slice_to_vec(self.token_b_mint.as_slice()));
        assert(seeds.deep_view()[0] =~= POOL_SEED@);
        assert(seeds.deep_view()[1] =~= self.token_b_mint@);
        seeds
    }
}

} // verus!
