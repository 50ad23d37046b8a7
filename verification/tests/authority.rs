use anchor_lang::prelude::Pubkey;
use bio_launch::error::ErrorCode;
use bio_launch::state::swap_pair::same_key;
use bio_launch::state::{SignerSeeds, SwapPair};

fn pair_with_mint(mint: [u8; 32]) -> SwapPair {
    SwapPair {
        token_a_account: [0; 32],
        token_b_account: [1; 32],
        token_a_mint: [0; 32],
        token_b_mint: mint,
        total_supply: 10,
        reserve_token: 10,
        reserve_sol: 0,
    }
}

#[test]
fn same_key_compares_all_bytes() {
    let a = [7u8; 32];
    let mut b = [7u8; 32];
    assert!(same_key(&a, &b));
    b[31] = 8;
    assert!(!same_key(&a, &b));
    b[31] = 7;
    b[0] = 0;
    assert!(!same_key(&a, &b));
}

#[test]
fn seeds_for_matching_authority() {
    let p = pair_with_mint([4; 32]);
    assert_eq!(p.seeds_for_authority(([9; 32], 251), &[9; 32]), Ok(SignerSeeds([4; 32], [251])));
}

#[test]
fn seeds_refused_for_other_account() {
    let p = pair_with_mint([4; 32]);
    assert_eq!(p.seeds_for_authority(([9; 32], 251), &[8; 32]), Err(ErrorCode::InvalidArgument));
}

#[test]
fn seed_value_lists_pool_mint_and_bump() {
    let s = SignerSeeds([4; 32], [253]);
    let v = s.value();
    assert_eq!(v[0], b"pool");
    assert_eq!(v[1], &[4u8; 32][..]);
    assert_eq!(v[2], &[253u8][..]);
}

#[test]
fn signer_seeds_for_the_derived_authority() {
    let mint = [4u8; 32];
    let program_id = [5u8; 32];
    let (expected, bump) = Pubkey::find_program_address(&[b"pool", &mint], &Pubkey::new_from_array(program_id));
    let p = pair_with_mint(mint);
    let pda = expected.to_bytes();
    assert_eq!(p.signer_seeds(&pda, &program_id), Ok(SignerSeeds(mint, [bump])));
    assert_eq!(p.try_signer_seeds(&pda, &program_id), Some(Ok(SignerSeeds(mint, [bump]))));
}

#[test]
fn signer_seeds_refused_for_another_account() {
    let mint = [4u8; 32];
    let program_id = [5u8; 32];
    let p = pair_with_mint(mint);
    assert_eq!(p.signer_seeds(&program_id, &program_id), Err(ErrorCode::InvalidArgument));
    assert_eq!(p.try_signer_seeds(&mint, &program_id), Some(Err(ErrorCode::InvalidArgument)));
}

#[test]
fn signer_seeds_depend_on_the_program() {
    let mint = [4u8; 32];
    let p = pair_with_mint(mint);
    let (under_five, _) = Pubkey::find_program_address(&[b"pool", &mint], &Pubkey::new_from_array([5u8; 32]));
    assert_eq!(p.signer_seeds(&under_five.to_bytes(), &[6u8; 32]), Err(ErrorCode::InvalidArgument));
}
