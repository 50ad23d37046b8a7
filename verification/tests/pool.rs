use bio_launch::error::ErrorCode;
use bio_launch::instructions::{
    create_accounts_handler, create_pool_handler, swap_exact_in_handler, swap_exact_out_handler,
    withdraw_all_handler, Asset, CreatePool, Party, Transfer,
};
use bio_launch::state::constants::{POOL_SEED, PROPORTION, SEED, SWAP_PAIR_SEED};
use bio_launch::state::{SignerSeeds, SwapPair, SwapResult};

fn key(b: u8) -> [u8; 32] {
    [b; 32]
}

fn pair(reserve_token: u64, reserve_sol: u64) -> SwapPair {
    SwapPair {
        token_a_account: key(1),
        token_b_account: key(2),
        token_a_mint: key(3),
        token_b_mint: key(4),
        total_supply: 1_000_000,
        reserve_token,
        reserve_sol,
    }
}

fn seeds() -> SignerSeeds {
    SignerSeeds(key(4), [254])
}

#[test]
fn constants_hold_their_byte_strings() {
    assert_eq!(&SEED, b"anchor");
    assert_eq!(&POOL_SEED, b"pool");
    assert_eq!(&SWAP_PAIR_SEED, b"swap-pair");
    assert_eq!(PROPORTION, 1280);
}

#[test]
fn error_messages() {
    assert_eq!(ErrorCode::InvalidArgument.message(), "Invalid arguments");
    assert_eq!(ErrorCode::InvalidInput.message(), "InvalidInput");
    assert_eq!(ErrorCode::ExceededSlippage.message(), "Swap instruction exceeds desired slippage limit");
    assert_eq!(ErrorCode::ZeroTradingTokens.message(), "Given pool token amount results in zero trading tokens");
    assert_eq!(ErrorCode::SolInsufficient.message(), "sol amount is small than require");
    assert_eq!(ErrorCode::TokenAmountTooBig.message(), "Given Token amount too big");
}

#[test]
fn create_accounts_always_succeeds() {
    assert_eq!(create_accounts_handler(), Ok(()));
}

#[test]
fn create_pool_records_supply_and_reserves() {
    let mut p = pair(5, 7);
    let accounts = CreatePool { token_b: key(9), token_b_for_pda: key(8), token_b_for_pda_amount: 800_000_000 };
    assert_eq!(create_pool_handler(&mut p, &accounts), Ok(()));
    assert_eq!(p.token_b_mint, key(9));
    assert_eq!(p.token_b_account, key(8));
    assert_eq!(p.total_supply, 800_000_000);
    assert_eq!(p.reserve_token, 800_000_000);
    assert_eq!(p.reserve_sol, 0);
    assert_eq!(p.token_a_account, key(1));
    assert_eq!(p.token_a_mint, key(3));
}

#[test]
fn buy_with_nothing_is_invalid_input() {
    let mut p = pair(100, 10);
    let r = swap_exact_in_handler(&mut p, 0, 5, Ok(seeds()));
    assert_eq!(r.err(), Some(ErrorCode::InvalidInput));
    assert_eq!(p, pair(100, 10));
}

#[test]
fn buy_beyond_reserve_is_refused() {
    let mut p = pair(100, 10);
    let r = swap_exact_in_handler(&mut p, 3, 101, Ok(seeds()));
    assert_eq!(r.err(), Some(ErrorCode::ZeroTradingTokens));
    assert_eq!(p, pair(100, 10));
}

#[test]
fn buy_checks_come_before_the_authority() {
    let mut p = pair(100, 10);
    let r = swap_exact_in_handler(&mut p, 0, 5, Err(ErrorCode::InvalidArgument));
    assert_eq!(r.err(), Some(ErrorCode::InvalidInput));
    let r = swap_exact_in_handler(&mut p, 3, 5, Err(ErrorCode::InvalidArgument));
    assert_eq!(r.err(), Some(ErrorCode::InvalidArgument));
    assert_eq!(p, pair(100, 10));
}

#[test]
fn buy_moves_reserves_and_plans_transfers() {
    let mut p = pair(100, 10);
    let s = swap_exact_in_handler(&mut p, 3, 40, Ok(seeds())).unwrap();
    assert_eq!(p, pair(60, 13));
    assert_eq!(s.signer, seeds());
    assert_eq!(
        s.transfers,
        vec![
            Transfer { asset: Asset::Sol, from: Party::Swapper, to: Party::Pool, amount: 3 },
            Transfer { asset: Asset::Token, from: Party::Pool, to: Party::Swapper, amount: 40 },
        ]
    );
}

#[test]
fn buy_of_whole_reserve() {
    let mut p = pair(100, 0);
    assert!(swap_exact_in_handler(&mut p, 1, 100, Ok(seeds())).is_ok());
    assert_eq!(p, pair(0, 1));
}

#[test]
fn sell_with_nothing_is_invalid_input() {
    let mut p = pair(100, 10);
    let r = swap_exact_out_handler(&mut p, 0, 0, Ok(seeds()));
    assert_eq!(r.err(), Some(ErrorCode::InvalidInput));
    assert_eq!(p, pair(100, 10));
}

#[test]
fn sell_beyond_token_reserve_is_too_big() {
    let mut p = pair(100, 10);
    let r = swap_exact_out_handler(&mut p, 101, 1, Ok(seeds()));
    assert_eq!(r.err(), Some(ErrorCode::TokenAmountTooBig));
    assert_eq!(p, pair(100, 10));
}

#[test]
fn sell_beyond_sol_reserve_is_insufficient() {
    let mut p = pair(100, 10);
    let r = swap_exact_out_handler(&mut p, 50, 11, Ok(seeds()));
    assert_eq!(r.err(), Some(ErrorCode::SolInsufficient));
    assert_eq!(p, pair(100, 10));
}

#[test]
fn sell_checks_token_size_before_payout() {
    let mut p = pair(100, 10);
    let r = swap_exact_out_handler(&mut p, 101, 11, Err(ErrorCode::InvalidArgument));
    assert_eq!(r.err(), Some(ErrorCode::TokenAmountTooBig));
}

#[test]
fn sell_moves_reserves_and_plans_transfers() {
    let mut p = pair(100, 10);
    let s = swap_exact_out_handler(&mut p, 50, 4, Ok(seeds())).unwrap();
    assert_eq!(p, pair(150, 6));
    assert_eq!(
        s.transfers,
        vec![
            Transfer { asset: Asset::Token, from: Party::Swapper, to: Party::Pool, amount: 50 },
            Transfer { asset: Asset::Sol, from: Party::Pool, to: Party::Swapper, amount: 4 },
        ]
    );
}

#[test]
fn sell_with_authority_error_changes_nothing() {
    let mut p = pair(100, 10);
    let r = swap_exact_out_handler(&mut p, 50, 4, Err(ErrorCode::InvalidArgument));
    assert_eq!(r.err(), Some(ErrorCode::InvalidArgument));
    assert_eq!(p, pair(100, 10));
}

#[test]
fn buy_then_sell_back_restores_token_reserve() {
    let mut p = pair(100, 10);
    swap_exact_in_handler(&mut p, 30, 20, Ok(seeds())).unwrap();
    swap_exact_out_handler(&mut p, 20, 25, Ok(seeds())).unwrap();
    assert_eq!(p.reserve_token, 100);
    assert_eq!(p.reserve_sol, 15);
    assert_eq!(p.total_supply, 1_000_000);
}

#[test]
fn withdraw_moves_the_token_reserve_and_keeps_the_pair() {
    let p = pair(77, 10);
    let s = withdraw_all_handler(&p, Ok(seeds())).unwrap();
    assert_eq!(s.transfers, vec![Transfer { asset: Asset::Token, from: Party::Pool, to: Party::Swapper, amount: 77 }]);
    assert_eq!(p, pair(77, 10));
    assert_eq!(withdraw_all_handler(&p, Err(ErrorCode::InvalidArgument)).err(), Some(ErrorCode::InvalidArgument));
}

#[test]
fn swap_result_holds_amounts() {
    let r = SwapResult { source_amount_swapped: 1, destination_amount_swapped: 2 };
    assert_eq!(r.source_amount_swapped + r.destination_amount_swapped, 3);
}
