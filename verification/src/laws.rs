//! Properties that relate the pool's instructions to one another.
use vstd::prelude::*;

use crate::error::ErrorCode;
use crate::instructions::create_pool::{created_pair, CreatePool};
use crate::instructions::settlement::{net_into_pool, Asset, Party, Transfer};
use crate::instructions::swap_exact_in::{buy_outcome, buy_overflows, buy_transfers};
use crate::instructions::swap_exact_out::{sell_outcome, sell_overflows, sell_transfers};
use crate::instructions::withdraw_all::withdraw_transfers;
use crate::state::constants::POOL_SEED;
use crate::state::swap_pair::{authority_check, pool_seeds, seed_list};
use crate::state::{SignerSeeds, SwapPair};

verus! {

/// One trade against the pool: lamports or tokens in, with the amount the
/// curve quoted to come out.
pub enum Trade {
    Buy { amount_in: u64, quoted_out: u64 },
    Sell { amount_in: u64, quoted_out: u64 },
}

/// Whether two pairs describe the same pool: same accounts, mints and supply.
pub open spec fn same_pool(a: SwapPair, b: SwapPair) -> bool {
    &&& a.token_a_account == b.token_a_account
    &&& a.token_b_account == b.token_b_account
    &&& a.token_a_mint == b.token_a_mint
    &&& a.token_b_mint == b.token_b_mint
    &&& a.total_supply == b.total_supply
}

/// Whether a trade can be applied without an arithmetic abort.
pub open spec fn trade_fits(pair: SwapPair, t: Trade) -> bool {
    match t {
        Trade::Buy { amount_in, quoted_out } => !buy_overflows(pair, amount_in, quoted_out),
        Trade::Sell { amount_in, quoted_out } => !sell_overflows(pair, amount_in, quoted_out),
    }
}

/// The pair after one trade, or its error.
pub open spec fn trade_outcome(pair: SwapPair, t: Trade) -> Result<SwapPair, ErrorCode> {
    match t {
        Trade::Buy { amount_in, quoted_out } => buy_outcome(pair, amount_in, quoted_out),
        Trade::Sell { amount_in, quoted_out } => sell_outcome(pair, amount_in, quoted_out),
    }
}

/// The transfers one trade performs.
pub open spec fn trade_transfers(t: Trade) -> Seq<Transfer> {
    match t {
        Trade::Buy { amount_in, quoted_out } => buy_transfers(amount_in, quoted_out),
        Trade::Sell { amount_in, quoted_out } => sell_transfers(amount_in, quoted_out),
    }
}

/// Applies the trades in order; `None` when one of them fails or aborts.
pub open spec fn run_trades(pair: SwapPair, trades: Seq<Trade>) -> Option<SwapPair>
    decreases trades.len(),
{
    if trades.len() == 0 {
        Some(pair)
    } else {
        match run_trades(pair, trades.drop_last()) {
            None => None,
            Some(mid) => if trade_fits(mid, trades.last()) {
                match trade_outcome(mid, trades.last()) {
                    Ok(next) => Some(next),
                    Err(_) => None,
                }
            } else {
                None
            },
        }
    }
}

/// All the transfers of a run of trades, in order.
pub open spec fn run_transfers(trades: Seq<Trade>) -> Seq<Transfer>
    decreases trades.len(),
{
    if trades.len() == 0 {
        seq![]
    } else {
        run_transfers(trades.drop_last()) + trade_transfers(trades.last())
    }
}

proof fn lemma_net_into_pool_append(a: Seq<Transfer>, b: Seq<Transfer>, asset: Asset)
    ensures
        net_into_pool(a + b, asset) == net_into_pool(a, asset) + net_into_pool(b, asset),
    decreases b.len(),
{
    if b.len() == 0 {
        assert(a + b =~= a);
    } else {
        lemma_net_into_pool_append(a, b.drop_last(), asset);
        assert((a + b).drop_last() =~= a + b.drop_last());
    }
}

/// A successful buy or sell keeps the pool's accounts, mints and total
/// supply, and moves its recorded reserves by exactly the amounts that its
/// transfers move into and out of the pool.
pub proof fn lemma_trade_reserves_follow_transfers(pair: SwapPair, t: Trade)
    requires
        trade_fits(pair, t),
        trade_outcome(pair, t) is Ok,
    ensures
        same_pool(pair, trade_outcome(pair, t).unwrap()),
        trade_outcome(pair, t).unwrap().reserve_sol == pair.reserve_sol + net_into_pool(trade_transfers(t), Asset::Sol),
        trade_outcome(pair, t).unwrap().reserve_token == pair.reserve_token + net_into_pool(trade_transfers(t), Asset::Token),
{
    let ts = trade_transfers(t);
    assert(ts.drop_last().drop_last() =~= Seq::<Transfer>::empty());
    assert(ts.drop_last() =~= seq![ts[0]]);
    reveal_with_fuel(net_into_pool, 3);
}

/// Over any run of successful trades, the pool's accounts, mints and total
/// supply stay as they were, and each recorded reserve equals its starting
/// value plus everything the trades' transfers moved into the pool less
/// everything they moved out.
pub proof fn lemma_run_reserves_follow_transfers(pair: SwapPair, trades: Seq<Trade>)
    requires
        run_trades(pair, trades) is Some,
    ensures
        same_pool(pair, run_trades(pair, trades).unwrap()),
        run_trades(pair, trades).unwrap().reserve_sol == pair.reserve_sol + net_into_pool(run_transfers(trades), Asset::Sol),
        run_trades(pair, trades).unwrap().reserve_token == pair.reserve_token + net_into_pool(run_transfers(trades), Asset::Token),
    decreases trades.len(),
{
    if trades.len() == 0 {
        assert(run_transfers(trades) =~= Seq::<Transfer>::empty());
    } else {
        let init = trades.drop_last();
        lemma_run_reserves_follow_transfers(pair, init);
        let mid = run_trades(pair, init).unwrap();
        lemma_trade_reserves_follow_transfers(mid, trades.last());
        lemma_net_into_pool_append(run_transfers(init), trade_transfers(trades.last()), Asset::Sol);
        lemma_net_into_pool_append(run_transfers(init), trade_transfers(trades.last()), Asset::Token);
    }
}

/// Selling back the tokens just bought returns the token reserve to where it
/// was, and leaves the SOL reserve higher by what was paid less what was
/// paid back.
pub proof fn lemma_buy_then_sell_restores_token_reserve(pair: SwapPair, sol_in: u64, tokens: u64, sol_back: u64)
    requires
        !buy_overflows(pair, sol_in, tokens),
        buy_outcome(pair, sol_in, tokens) is Ok,
        !sell_overflows(buy_outcome(pair, sol_in, tokens).unwrap(), tokens, sol_back),
        sell_outcome(buy_outcome(pair, sol_in, tokens).unwrap(), tokens, sol_back) is Ok,
    ensures
        ({
            let after = sell_outcome(buy_outcome(pair, sol_in, tokens).unwrap(), tokens, sol_back).unwrap();
            &&& same_pool(pair, after)
            &&& after.reserve_token == pair.reserve_token
            &&& after.reserve_sol == pair.reserve_sol + sol_in - sol_back
        }),
{
}

/// A trade that is refused reports the first check that fails: an empty
/// input before anything else, and for a sell the size of the input against
/// the token reserve before the payout against the SOL reserve.
pub proof fn lemma_refusal_order(pair: SwapPair, amount_in: u64, quoted_out: u64)
    ensures
        amount_in == 0 ==> buy_outcome(pair, amount_in, quoted_out) == Err::<SwapPair, ErrorCode>(ErrorCode::InvalidInput),
        amount_in == 0 ==> sell_outcome(pair, amount_in, quoted_out) == Err::<SwapPair, ErrorCode>(ErrorCode::InvalidInput),
        amount_in != 0 && amount_in > pair.reserve_token ==> sell_outcome(pair, amount_in, quoted_out)
            == Err::<SwapPair, ErrorCode>(ErrorCode::TokenAmountTooBig),
        buy_outcome(pair, amount_in, quoted_out) is Ok <==> (amount_in != 0 && quoted_out <= pair.reserve_token),
        sell_outcome(pair, amount_in, quoted_out) is Ok
            <==> (amount_in != 0 && amount_in <= pair.reserve_token && quoted_out <= pair.reserve_sol),
{
}

/// The signer seeds are only granted for the derived pool authority, and
/// they are the seeds the authority was derived from followed by its bump.
pub proof fn lemma_granted_seeds_sign_for_authority(mint: [u8; 32], found: Seq<u8>, bump: u8, pda: Seq<u8>)
    requires
        authority_check(mint, found, bump, pda) is Ok,
    ensures
        found == pda,
        seed_list(authority_check(mint, found, bump, pda).unwrap()) == pool_seeds(mint@).push(seq![bump]),
{
    let s = authority_check(mint, found, bump, pda).unwrap();
    assert(s.1@ =~= seq![bump]);
    assert(seed_list(s) =~= pool_seeds(mint@).push(seq![bump]));
}

/// A withdrawal moves the whole recorded token reserve out of the pool and
/// nothing else.
pub proof fn lemma_withdraw_moves_token_reserve(pair: SwapPair)
    ensures
        net_into_pool(withdraw_transfers(pair), Asset::Token) == -pair.reserve_token,
        net_into_pool(withdraw_transfers(pair), Asset::Sol) == 0,
{
    assert(withdraw_transfers(pair).drop_last() =~= Seq::<Transfer>::empty());
    reveal_with_fuel(net_into_pool, 2);
}

/// A successful buy takes exactly `amount_in` lamports into the pool and
/// gives exactly `quoted_out` tokens out of it: the SOL reserve grows by the
/// one, the token reserve shrinks by the other, and the two transfers carry
/// exactly those amounts; nothing else about the pool changes.
pub proof fn lemma_buy_moves_exact_amounts(pair: SwapPair, amount_in: u64, quoted_out: u64)
    requires
        !buy_overflows(pair, amount_in, quoted_out),
        buy_outcome(pair, amount_in, quoted_out) is Ok,
    ensures
        ({
            let next = buy_outcome(pair, amount_in, quoted_out).unwrap();
            let ts = buy_transfers(amount_in, quoted_out);
            &&& next.reserve_token == pair.reserve_token - quoted_out
            &&& next.reserve_sol == pair.reserve_sol + amount_in
            &&& same_pool(pair, next)
            &&& ts.len() == 2
            &&& ts[0] == (Transfer { asset: Asset::Sol, from: Party::Swapper, to: Party::Pool, amount: amount_in })
            &&& ts[1] == (Transfer { asset: Asset::Token, from: Party::Pool, to: Party::Swapper, amount: quoted_out })
            &&& net_into_pool(ts, Asset::Sol) == amount_in
            &&& net_into_pool(ts, Asset::Token) == -quoted_out
        }),
{
    let ts = buy_transfers(amount_in, quoted_out);
    assert(ts.drop_last().drop_last() =~= Seq::<Transfer>::empty());
    assert(ts.drop_last() =~= seq![ts[0]]);
    reveal_with_fuel(net_into_pool, 3);
}

/// A successful sell takes exactly `amount_in` tokens into the pool and pays
/// exactly `quoted_out` lamports out of it: the token reserve grows by the
/// one, the SOL reserve shrinks by the other, and the two transfers carry
/// exactly those amounts; nothing else about the pool changes.
pub proof fn lemma_sell_moves_exact_amounts(pair: SwapPair, amount_in: u64, quoted_out: u64)
    requires
        !sell_overflows(pair, amount_in, quoted_out),
        sell_outcome(pair, amount_in, quoted_out) is Ok,
    ensures
        ({
            let next = sell_outcome(pair, amount_in, quoted_out).unwrap();
            let ts = sell_transfers(amount_in, quoted_out);
            &&& next.reserve_token == pair.reserve_token + amount_in
            &&& next.reserve_sol == pair.reserve_sol - quoted_out
            &&& same_pool(pair, next)
            &&& ts.len() == 2
            &&& ts[0] == (Transfer { asset: Asset::Token, from: Party::Swapper, to: Party::Pool, amount: amount_in })
            &&& ts[1] == (Transfer { asset: Asset::Sol, from: Party::Pool, to: Party::Swapper, amount: quoted_out })
            &&& net_into_pool(ts, Asset::Token) == amount_in
            &&& net_into_pool(ts, Asset::Sol) == -quoted_out
        }),
{
    let ts = sell_transfers(amount_in, quoted_out);
    assert(ts.drop_last().drop_last() =~= Seq::<Transfer>::empty());
    assert(ts.drop_last() =~= seq![ts[0]]);
    reveal_with_fuel(net_into_pool, 3);
}

/// The pool authority is derived from exactly two seeds: the bytes of
/// "pool" and the mint, unchanged.
pub proof fn lemma_pool_seeds_hold_mint(mint: Seq<u8>)
    ensures
        POOL_SEED@ == seq![112u8, 111u8, 111u8, 108u8],
        pool_seeds(mint).len() == 2,
        pool_seeds(mint)[0] == seq![112u8, 111u8, 111u8, 108u8],
        pool_seeds(mint)[1] == mint,
{
    assert(POOL_SEED@ =~= seq![112u8, 111u8, 111u8, 108u8]);
}

/// Checking a found authority grants seeds exactly when it is the account
/// passed in, and the seeds granted are the pair's mint, unchanged, with the
/// found bump: "pool", the mint, and the bump.
pub proof fn lemma_authority_grants_mint_seeds(mint: [u8; 32], found: Seq<u8>, bump: u8, pda: Seq<u8>)
    ensures
        found == pda <==> authority_check(mint, found, bump, pda) is Ok,
        found != pda ==> authority_check(mint, found, bump, pda) == Err::<SignerSeeds, ErrorCode>(ErrorCode::InvalidArgument),
        found == pda ==> ({
            let s = authority_check(mint, found, bump, pda).unwrap();
            &&& s.0 == mint
            &&& s.1@ == seq![bump]
            &&& seed_list(s) == seq![seq![112u8, 111u8, 111u8, 108u8], mint@, seq![bump]]
        }),
{
    if found == pda {
        let s = authority_check(mint, found, bump, pda).unwrap();
        assert(s.1@ =~= seq![bump]);
        assert(POOL_SEED@ =~= seq![112u8, 111u8, 111u8, 108u8]);
        assert(seed_list(s) =~= seq![seq![112u8, 111u8, 111u8, 108u8], mint@, seq![bump]]);
    }
}

/// Creating a pool records the account's amount, unchanged, as both the
/// total supply and the token reserve, the given token account and mint,
/// no SOL, and keeps the rest of the pair.
pub proof fn lemma_created_pair_records_amount(pair: SwapPair, accounts: CreatePool)
    ensures
        created_pair(pair, accounts).total_supply == accounts.token_b_for_pda_amount,
        created_pair(pair, accounts).reserve_token == accounts.token_b_for_pda_amount,
        created_pair(pair, accounts).reserve_sol == 0,
        created_pair(pair, accounts).token_b_account == accounts.token_b_for_pda,
        created_pair(pair, accounts).token_b_mint == accounts.token_b,
        created_pair(pair, accounts).token_a_account == pair.token_a_account,
        created_pair(pair, accounts).token_a_mint == pair.token_a_mint,
{
}

} // verus!
