//! Account lists and data payloads of the stake pool program's
//! instructions.

pub mod cleanup_removed_validator_entries;
pub mod deposit_sol;
pub mod deposit_stake;
pub mod increase_additional_validator_stake;
pub mod initialize;
pub mod update_stake_pool_balance;
pub mod update_validator_list_balance;
pub mod withdraw_sol;
pub mod withdraw_stake;

use vstd::prelude::*;

verus! {

pub const INSTRUCTION_IDX_INITIALIZE: u8 = 0;

pub const INSTRUCTION_IDX_UPDATE_VALIDATOR_LIST_BALANCE: u8 = 6;

pub const INSTRUCTION_IDX_UPDATE_STAKE_POOL_BALANCE: u8 = 7;

pub const INSTRUCTION_IDX_CLEANUP_REMOVED_VALIDATOR_ENTRIES: u8 = 8;

pub const INSTRUCTION_IDX_DEPOSIT_STAKE: u8 = 9;

pub const INSTRUCTION_IDX_WITHDRAW_STAKE: u8 = 10;

pub const INSTRUCTION_IDX_DEPOSIT_SOL: u8 = 14;

pub const INSTRUCTION_IDX_WITHDRAW_SOL: u8 = 16;

pub const INSTRUCTION_IDX_INCREASE_ADDITIONAL_VALIDATOR_STAKE: u8 = 19;

} // verus!
