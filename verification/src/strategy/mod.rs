pub mod errors;
pub mod state;
pub mod strategy_interface;
