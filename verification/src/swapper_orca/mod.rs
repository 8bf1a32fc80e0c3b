pub mod error;
pub mod utils;
