pub mod pubkey;
pub mod errors;
pub mod constants;
pub mod state;
pub mod utils;
pub mod instructions;
