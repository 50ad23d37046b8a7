use vstd::prelude::*;

use crate::error::ErrorCode;
use crate::instructions::settlement::{transfer, Asset, Party, Settlement, Transfer};
use crate::state::{SignerSeeds, SwapPair};

verus! {

/// Whether buying with `amount_in` lamports for `quoted_out` tokens passes the
/// checks and leaves the SOL reserve representable.
pub open spec fn buy_overflows(pair: SwapPair, amount_in: u64, quoted_out: u64) -> bool {
    amount_in != 0 && quoted_out <= pair.reserve_token && pair.reserve_sol + amount_in > u64::MAX
}

/// The pair after a buy of `quoted_out` tokens for `amount_in` lamports, or
/// the error that refuses it.
pub open spec fn buy_outcome(pair: SwapPair, amount_in: u64, quoted_out: u64) -> Result<SwapPair, ErrorCode> {
    if amount_in == 0 {
        Err(ErrorCode::InvalidInput)
    } else if quoted_out > pair.reserve_token {
        Err(ErrorCode::ZeroTradingTokens)
    } else {
        Ok(SwapPair {
            reserve_sol: (pair.reserve_sol + amount_in) as u64,
            reserve_token: (pair.reserve_token - quoted_out) as u64,
            ..pair
        })
    }
}

/// The transfers of a buy: the lamports into the pool, then the tokens out.
pub open spec fn buy_transfers(amount_in: u64, quoted_out: u64) -> Seq<Transfer> {
    seq![
        Transfer { asset: Asset::Sol, from: Party::Swapper, to: Party::Pool, amount: amount_in },
        Transfer { asset: Asset::Token, from: Party::Pool, to: Party::Swapper, amount: quoted_out },
    ]
}

/// Buys tokens from the pool: `amount_in` lamports for `quoted_out` tokens,
/// the amount the bonding curve quotes for them. `authority` is the result
/// of deriving the pool authority's signer seeds. On success the pair's
/// reserves are updated and the transfers to perform are returned; on an
/// error the pair is left as it was.
pub fn swap_exact_in_handler(
    pair: &mut SwapPair,
    amount_in: u64,
    quoted_out: u64,
    authority: Result<SignerSeeds, ErrorCode>,
) -> (r: Result<Settlement, ErrorCode>)
    requires
        !buy_overflows(*old(pair), amount_in, quoted_out),
    ensures
        match buy_outcome(*old(pair), amount_in, quoted_out) {
            Err(e) => r == Err::<Settlement, ErrorCode>(e) && *final(pair) == *old(pair),
            Ok(next) => match authority {
                Err(e) => r == Err::<Settlement, ErrorCode>(e) && *final(pair) == *old(pair),
                Ok(seeds) => r is Ok && r.unwrap().signer == seeds
                    && r.unwrap().transfers@ == buy_transfers(amount_in, quoted_out)
                    && *final(pair) == next,
            },
        },
        // The same, stated directly against the inputs.
        r is Ok <==> (amount_in != 0 && quoted_out <= old(pair).reserve_token && authority is Ok),
        amount_in == 0 ==> r == Err::<Settlement, ErrorCode>(ErrorCode::InvalidInput),
        amount_in != 0 && quoted_out > old(pair).reserve_token
            ==> r == Err::<Settlement, ErrorCode>(ErrorCode::ZeroTradingTokens),
        r is Err ==> *final(pair) == *old(pair),
        r is Ok ==> {
            &&& final(pair).reserve_token == old(pair).reserve_token - quoted_out
            &&& final(pair).reserve_sol == old(pair).reserve_sol + amount_in
            &&& final(pair).total_supply == old(pair).total_supply
            &&& final(pair).token_a_account == old(pair).token_a_account
            &&& final(pair).token_b_account == old(pair).token_b_account
            &&& final(pair).token_a_mint == old(pair).token_a_mint
            &&& final(pair).token_b_mint == old(pair).token_b_mint
            &&& authority == Ok::<SignerSeeds, ErrorCode>(r.unwrap().signer)
            &&& r.unwrap().transfers@.len() == 2
            &&& r.unwrap().transfers@[0] == (Transfer { asset: Asset::Sol, from: Party::Swapper, to: Party::Pool, amount: amount_in })
            &&& r.unwrap().transfers@[1] == (Transfer { asset: Asset::Token, from: Party::Pool, to: Party::Swapper, amount: quoted_out })
        },
{
    if amount_in == 0 {
        return Err(ErrorCode::InvalidInput);
    }
    if quoted_out > pair.reserve_token {
        return Err(ErrorCode::ZeroTradingTokens);
    }
    let signer = match authority {
        Ok(s) => s,
        Err(e) => return Err(e),
    };
    pair.reserve_sol = pair.reserve_sol + amount_in;
    pair.reserve_token = pair.reserve_token - quoted_out;
    let mut transfers: Vec<Transfer> = Vec::new();
    transfers.push(transfer(Asset::Sol, Party::Swapper, Party::Pool, amount_in));
    transfers.push(transfer(Asset::Token, Party::Pool, Party::Swapper, quoted_out));
    assert(transfers@ =~= buy_transfers(amount_in, quoted_out));
    Ok(Settlement { signer, transfers })
}

} // verus!
