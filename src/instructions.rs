pub mod claim;
pub mod create_vesting;
pub mod revoke;
