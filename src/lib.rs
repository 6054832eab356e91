//! Accounting core of a delegated-staking pool client: exact conversions
//! between staked lamports and pool tokens, fee schedules, account byte
//! layouts and program-derived address search.

pub mod account_meta;
pub mod codec;
pub mod consts;
pub mod error;
pub mod instructions;
pub mod ix_builders;
pub mod laws;
pub mod pda;
pub mod pool;
pub mod pool_layout;
pub mod quote;
pub mod ratio;
pub mod typedefs;
pub mod validator_list;
