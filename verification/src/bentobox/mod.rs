pub mod admin;
pub mod context;
pub mod error;
pub mod flash;
pub mod instructions;
pub mod laws;
pub mod state;
pub mod strategy_manager;
pub mod utils;
