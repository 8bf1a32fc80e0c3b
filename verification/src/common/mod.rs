pub mod big_number;
pub mod constants;
pub mod errors;
pub mod pubkey;
pub mod rebase;
pub mod token;
pub mod utils;
