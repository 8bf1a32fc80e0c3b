pub mod error;
pub mod laws;
pub mod program;
pub mod state;
