pub mod error;
pub mod instructions;
pub mod market;
pub mod state;
pub mod utils;
