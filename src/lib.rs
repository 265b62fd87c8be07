pub mod authority;
pub mod constants;
pub mod error;
pub mod instructions;
pub mod lemmas;
pub mod state;
pub mod token_vesting;
