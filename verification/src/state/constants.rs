use vstd::prelude::*;

verus! {

/// A seed kept for clients (the bytes of "anchor").
pub const SEED: [u8; 6] = [97, 110, 99, 104, 111, 114];

/// Scale of the bonding curve: 800M tokens are sold for 500 SOL,
/// (500 * 2 / 800) = 1.25, 800 / 1.25 = 640, 640 * 2 = 1280.
pub const PROPORTION: u64 = 1280;

/// First seed of the pool authority's address (the bytes of "pool").
pub const POOL_SEED: [u8; 4] = [112, 111, 111, 108];

/// First seed of the swap pair account's address (the bytes of "swap-pair").
pub const SWAP_PAIR_SEED: [u8; 9] = [115, 119, 97, 112, 45, 112, 97, 105, 114];

} // verus!
