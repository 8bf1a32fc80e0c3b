pub mod errors;
pub mod swapper_interface;
