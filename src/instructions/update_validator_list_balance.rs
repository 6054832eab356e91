use vstd::prelude::*;

use crate::consts::{STAKE_PROGRAM, SYSVAR_CLOCK, SYSVAR_STAKE_HISTORY};
use crate::codec::{spec_u32_le, u32_to_le_bytes};
use crate::instructions::INSTRUCTION_IDX_UPDATE_VALIDATOR_LIST_BALANCE;
use crate::pool::StakePool;

verus! {

pub const UPDATE_VALIDATOR_LIST_BALANCE_IX_PREFIX_ACCS_LEN: usize = 7;

pub const UPDATE_VALIDATOR_LIST_BALANCE_IX_PREFIX_ACCS_IDX_STAKE_POOL: usize = 0;

pub const UPDATE_VALIDATOR_LIST_BALANCE_IX_PREFIX_ACCS_IDX_WITHDRAW_AUTH: usize = 1;

pub const UPDATE_VALIDATOR_LIST_BALANCE_IX_PREFIX_ACCS_IDX_VALIDATOR_LIST: usize = 2;

pub const UPDATE_VALIDATOR_LIST_BALANCE_IX_PREFIX_ACCS_IDX_RESERVE: usize = 3;

pub const UPDATE_VALIDATOR_LIST_BALANCE_IX_PREFIX_ACCS_IDX_SYSVAR_CLOCK: usize = 4;

pub const UPDATE_VALIDATOR_LIST_BALANCE_IX_PREFIX_ACCS_IDX_SYSVAR_STAKE_HISTORY: usize = 5;

pub const UPDATE_VALIDATOR_LIST_BALANCE_IX_PREFIX_ACCS_IDX_STAKE_PROGRAM: usize = 6;

/// Accounts of `UpdateValidatorListBalance`, one `T` per account, in order:
/// stake pool, withdraw auth, validator list, reserve, sysvar clock, sysvar
/// stake history, stake program.
///
/// The validator and transient stake account of each updated validator follow this prefix, as writable pairs.
#[derive(Debug, Default, Clone, Copy, PartialEq, Eq, Hash)]
pub struct UpdateValidatorListBalanceIxPrefixAccs<T>(pub [T; 7]);

pub type UpdateValidatorListBalanceIxPrefixKeysOwned = UpdateValidatorListBalanceIxPrefixAccs<[u8; 32]>;

pub type UpdateValidatorListBalanceIxPrefixKeys<'a> = UpdateValidatorListBalanceIxPrefixAccs<&'a [u8; 32]>;

pub type UpdateValidatorListBalanceIxPrefixAccsFlag = UpdateValidatorListBalanceIxPrefixAccs<bool>;

/// Which of the accounts are written.
pub const UPDATE_VALIDATOR_LIST_BALANCE_IX_PREFIX_IS_WRITER: [bool; 7] = [
    false, false, true, true, false, false, false,
];

/// Which of the accounts sign.
pub const UPDATE_VALIDATOR_LIST_BALANCE_IX_PREFIX_IS_SIGNER: [bool; 7] = [
    false, false, false, false, false, false, false,
];

impl<T> UpdateValidatorListBalanceIxPrefixAccs<T> {
    pub fn new(arr: [T; 7]) -> (r: Self)
        ensures
            r.0 == arr,
    {
        Self(arr)
    }

    pub fn stake_pool(&self) -> (r: &T)
        ensures
            *r == self.0@[0],
    {
        &self.0[0]
    }

    pub fn with_stake_pool(self, val: T) -> (r: Self)
        ensures
            r.0@ == self.0@.update(0, val),
    {
        let mut arr = self.0;
        arr.set(0, val);
        Self(arr)
    }

    pub fn withdraw_auth(&self) -> (r: &T)
        ensures
            *r == self.0@[1],
    {
        &self.0[1]
    }

    pub fn with_withdraw_auth(self, val: T) -> (r: Self)
        ensures
            r.0@ == self.0@.update(1, val),
    {
        let mut arr = self.0;
        arr.set(1, val);
        Self(arr)
    }

    pub fn validator_list(&self) -> (r: &T)
        ensures
            *r == self.0@[2],
    {
        &self.0[2]
    }

    pub fn with_validator_list(self, val: T) -> (r: Self)
        ensures
            r.0@ == self.0@.update(2, val),
    {
        let mut arr = self.0;
        arr.set(2, val);
        Self(arr)
    }

    pub fn reserve(&self) -> (r: &T)
        ensures
            *r == self.0@[3],
    {
        &self.0[3]
    }

    pub fn with_reserve(self, val: T) -> (r: Self)
        ensures
            r.0@ == self.0@.update(3, val),
    {
        let mut arr = self.0;
        arr.set(3, val);
        Self(arr)
    }

    pub fn sysvar_clock(&self) -> (r: &T)
        ensures
            *r == self.0@[4],
    {
        &self.0[4]
    }

    pub fn with_sysvar_clock(self, val: T) -> (r: Self)
        ensures
            r.0@ == self.0@.update(4, val),
    {
        let mut arr = self.0;
        arr.set(4, val);
        Self(arr)
    }

    pub fn sysvar_stake_history(&self) -> (r: &T)
        ensures
            *r == self.0@[5],
    {
        &self.0[5]
    }

    pub fn with_sysvar_stake_history(self, val: T) -> (r: Self)
        ensures
            r.0@ == self.0@.update(5, val),
    {
        let mut arr = self.0;
        arr.set(5, val);
        Self(arr)
    }

    pub fn stake_program(&self) -> (r: &T)
        ensures
            *r == self.0@[6],
    {
        &self.0[6]
    }

    pub fn with_stake_program(self, val: T) -> (r: Self)
        ensures
            r.0@ == self.0@.update(6, val),
    {
        let mut arr = self.0;
        arr.set(6, val);
        Self(arr)
    }
}

impl UpdateValidatorListBalanceIxPrefixAccs<[u8; 32]> {
    pub fn as_borrowed(&self) -> (r: UpdateValidatorListBalanceIxPrefixKeys<'_>)
        ensures
            forall|i: int| 0 <= i < 7 ==> *r.0@[i] == self.0@[i],
    {
        UpdateValidatorListBalanceIxPrefixAccs(
            [
                &self.0[0], &self.0[1], &self.0[2], &self.0[3], &self.0[4], &self.0[5],
                &self.0[6],
            ],
        )
    }

    /// Fills in the accounts that the pool records.
    pub fn with_keys_from_stake_pool(self, pool: &StakePool) -> (r: Self)
        ensures
            r.0@ == self.0@
                .update(3, pool.reserve_stake)
                .update(2, pool.validator_list),
    {
        self
            .with_reserve(pool.reserve_stake)
            .with_validator_list(pool.validator_list)
    }

    /// Fills in the program and sysvar accounts, whose addresses are fixed.
    pub fn with_consts(self) -> (r: Self)
        ensures
            r.0@ == self.0@
                .update(6, STAKE_PROGRAM)
                .update(4, SYSVAR_CLOCK)
                .update(5, SYSVAR_STAKE_HISTORY),
    {
        self
            .with_stake_program(STAKE_PROGRAM)
            .with_sysvar_clock(SYSVAR_CLOCK)
            .with_sysvar_stake_history(SYSVAR_STAKE_HISTORY)
    }
}

impl<'a> UpdateValidatorListBalanceIxPrefixAccs<&'a [u8; 32]> {
    pub fn into_owned(self) -> (r: UpdateValidatorListBalanceIxPrefixKeysOwned)
        ensures
            forall|i: int| 0 <= i < 7 ==> r.0@[i] == *self.0@[i],
    {
        UpdateValidatorListBalanceIxPrefixAccs(
            [
                *self.0[0], *self.0[1], *self.0[2], *self.0[3], *self.0[4], *self.0[5],
                *self.0[6],
            ],
        )
    }

    /// Fills in the accounts that the pool records.
    pub fn with_keys_from_stake_pool(self, pool: &'a StakePool) -> (r: Self)
        ensures
            *r.0@[3] == pool.reserve_stake,
            *r.0@[2] == pool.validator_list,
            forall|i: int| 0 <= i < 7 && i != 3 && i != 2 ==> #[trigger] r.0@[i] == self.0@[i],
    {
        self
            .with_reserve(&pool.reserve_stake)
            .with_validator_list(&pool.validator_list)
    }

    /// Fills in the program and sysvar accounts, whose addresses are fixed.
    pub fn with_consts(self) -> (r: Self)
        ensures
            *r.0@[6] == STAKE_PROGRAM,
            *r.0@[4] == SYSVAR_CLOCK,
            *r.0@[5] == SYSVAR_STAKE_HISTORY,
            forall|i: int| 0 <= i < 7 && i != 6 && i != 4 && i != 5 ==> #[trigger] r.0@[i] == self.0@[i],
    {
        self
            .with_stake_program(&STAKE_PROGRAM)
            .with_sysvar_clock(&SYSVAR_CLOCK)
            .with_sysvar_stake_history(&SYSVAR_STAKE_HISTORY)
    }
}

/// Data of `UpdateValidatorListBalance`: the instruction index,
/// then the arguments in little-endian bytes.
#[derive(Debug, Clone, Copy, PartialEq, Eq, Hash)]
pub struct UpdateValidatorListBalanceIxData(pub [u8; 6]);

impl UpdateValidatorListBalanceIxData {
    pub fn new(start_index: u32, no_merge: bool) -> (r: Self)
        ensures
            r.0@ == seq![INSTRUCTION_IDX_UPDATE_VALIDATOR_LIST_BALANCE] + spec_u32_le(start_index) + seq![if no_merge { 1u8 } else { 0u8 }],
    {
        let start_index_le = u32_to_le_bytes(start_index);
        let no_merge_byte: u8 = if no_merge { 1 } else { 0 };
        let r = Self(
            [
                INSTRUCTION_IDX_UPDATE_VALIDATOR_LIST_BALANCE, start_index_le[0],
                start_index_le[1], start_index_le[2], start_index_le[3], no_merge_byte,
            ],
        );
        proof {
            assert(r.0@ =~= seq![INSTRUCTION_IDX_UPDATE_VALIDATOR_LIST_BALANCE] + spec_u32_le(start_index) + seq![if no_merge { 1u8 } else { 0u8 }]);
        }
        r
    }

    pub fn to_buf(&self) -> (r: [u8; 6])
        ensures
            r == self.0,
    {
        self.0
    }
}

} // verus!
