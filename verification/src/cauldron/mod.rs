pub mod context;
pub mod error;
pub mod instructions;
pub mod liquidation;
pub mod operations;
pub mod state;
pub mod utils;
