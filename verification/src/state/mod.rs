pub mod constants;
pub mod pda;
pub mod swap_pair;

pub use swap_pair::{SignerSeeds, SwapPair, SwapResult};
