use vstd::prelude::*;

use crate::error::ErrorCode;
use crate::state::SwapPair;

verus! {

/// What creating a pool reads from its accounts.
pub struct CreatePool {
    /// The traded token's mint.
    pub token_b: [u8; 32],
    /// The pool authority's token account.
    pub token_b_for_pda: [u8; 32],
    /// The amount of the traded token held in that account.
    pub token_b_for_pda_amount: u64,
}

/// The pair that creating a pool records over `pair`.
pub open spec fn created_pair(pair: SwapPair, accounts: CreatePool) -> SwapPair {
    SwapPair {
        token_b_account: accounts.token_b_for_pda,
        token_b_mint: accounts.token_b,
        total_supply: accounts.token_b_for_pda_amount,
        reserve_token: accounts.token_b_for_pda_amount,
        reserve_sol: 0,
        ..pair
    }
}

/// Records a new pool: its token account and mint, and the amount held in
/// that account as both the total supply and the token reserve, with no SOL.
pub fn create_pool_handler(pair: &mut SwapPair, accounts: &CreatePool) -> (r: Result<(), ErrorCode>)
    ensures
        r is Ok,
        *final(pair) == created_pair(*old(pair), *accounts),
        final(pair).reserve_token == final(pair).total_supply,
        final(pair).reserve_sol == 0,
        final(pair).total_supply == accounts.token_b_for_pda_amount,
        final(pair).reserve_token == accounts.token_b_for_pda_amount,
        final(pair).token_b_account == accounts.token_b_for_pda,
        final(pair).token_b_mint == accounts.token_b,
        final(pair).token_a_account == old(pair).token_a_account,
        final(pair).token_a_mint == old(pair).token_a_mint,
{
    pair.token_b_account = accounts.token_b_for_pda;
    pair.token_b_mint = accounts.token_b;
    pair.total_supply = accounts.token_b_for_pda_amount;
    pair.reserve_token = accounts.token_b_for_pda_amount;
    pair.reserve_sol = 0;
    Ok(())
}

} // verus!
