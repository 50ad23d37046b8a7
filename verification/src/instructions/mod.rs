pub mod create_accounts;
pub mod create_pool;
pub mod settlement;
pub mod swap_exact_in;
pub mod swap_exact_out;
pub mod withdraw_all;

pub use create_accounts::create_accounts_handler;
pub use create_pool::{create_pool_handler, CreatePool};
pub use settlement::{Asset, Party, Settlement, Transfer};
pub use swap_exact_in::swap_exact_in_handler;
pub use swap_exact_out::swap_exact_out_handler;
pub use withdraw_all::withdraw_all_handler;
