use vstd::prelude::*;

use crate::consts::{STAKE_PROGRAM, SYSTEM_PROGRAM, SYSVAR_CLOCK, SYSVAR_STAKE_CONFIG, SYSVAR_STAKE_HISTORY};
use crate::codec::{spec_u64_le, u64_to_le_bytes};
use crate::instructions::INSTRUCTION_IDX_INCREASE_ADDITIONAL_VALIDATOR_STAKE;
use crate::pool::StakePool;

verus! {

pub const INCREASE_ADDITIONAL_VALIDATOR_STAKE_IX_ACCS_LEN: usize = 14;

pub const INCREASE_ADDITIONAL_VALIDATOR_STAKE_IX_ACCS_IDX_STAKE_POOL: usize = 0;

pub const INCREASE_ADDITIONAL_VALIDATOR_STAKE_IX_ACCS_IDX_STAKER: usize = 1;

pub const INCREASE_ADDITIONAL_VALIDATOR_STAKE_IX_ACCS_IDX_WITHDRAW_AUTH: usize = 2;

pub const INCREASE_ADDITIONAL_VALIDATOR_STAKE_IX_ACCS_IDX_VALIDATOR_LIST: usize = 3;

pub const INCREASE_ADDITIONAL_VALIDATOR_STAKE_IX_ACCS_IDX_RESERVE: usize = 4;

pub const INCREASE_ADDITIONAL_VALIDATOR_STAKE_IX_ACCS_IDX_EPHEMERAL_STAKE: usize = 5;

pub const INCREASE_ADDITIONAL_VALIDATOR_STAKE_IX_ACCS_IDX_TRANSIENT_STAKE: usize = 6;

pub const INCREASE_ADDITIONAL_VALIDATOR_STAKE_IX_ACCS_IDX_VALIDATOR_STAKE: usize = 7;

pub const INCREASE_ADDITIONAL_VALIDATOR_STAKE_IX_ACCS_IDX_VALIDATOR_VOTE: usize = 8;

pub const INCREASE_ADDITIONAL_VALIDATOR_STAKE_IX_ACCS_IDX_SYSVAR_CLOCK: usize = 9;

pub const INCREASE_ADDITIONAL_VALIDATOR_STAKE_IX_ACCS_IDX_SYSVAR_STAKE_HISTORY: usize = 10;

pub const INCREASE_ADDITIONAL_VALIDATOR_STAKE_IX_ACCS_IDX_SYSVAR_STAKE_CONFIG: usize = 11;

pub const INCREASE_ADDITIONAL_VALIDATOR_STAKE_IX_ACCS_IDX_SYSTEM_PROGRAM: usize = 12;

pub const INCREASE_ADDITIONAL_VALIDATOR_STAKE_IX_ACCS_IDX_STAKE_PROGRAM: usize = 13;

/// Accounts of `IncreaseAdditionalValidatorStake`, one `T` per account, in order:
/// stake pool, staker, withdraw auth, validator list, reserve, ephemeral stake,
/// transient stake, validator stake, validator vote, sysvar clock, sysvar stake
/// history, sysvar stake config, system program, stake program.
#[derive(Debug, Default, Clone, Copy, PartialEq, Eq, Hash)]
pub struct IncreaseAdditionalValidatorStakeIxAccs<T>(pub [T; 14]);

pub type IncreaseAdditionalValidatorStakeIxKeysOwned = IncreaseAdditionalValidatorStakeIxAccs<[u8; 32]>;

pub type IncreaseAdditionalValidatorStakeIxKeys<'a> = IncreaseAdditionalValidatorStakeIxAccs<&'a [u8; 32]>;

pub type IncreaseAdditionalValidatorStakeIxAccsFlag = IncreaseAdditionalValidatorStakeIxAccs<bool>;

/// Which of the accounts are written.
pub const INCREASE_ADDITIONAL_VALIDATOR_STAKE_IX_PREFIX_IS_WRITER: [bool; 14] = [
    false, false, false, true, true, true, true, false, false, false, false, false, false, false,
];

/// Which of the accounts sign.
pub const INCREASE_ADDITIONAL_VALIDATOR_STAKE_IX_PREFIX_IS_SIGNER: [bool; 14] = [
    false, true, false, false, false, false, false, false, false, false, false, false, false,
    false,
];

impl<T> IncreaseAdditionalValidatorStakeIxAccs<T> {
    pub fn new(arr: [T; 14]) -> (r: Self)
        ensures
            r.0 == arr,
    {
        Self(arr)
    }

    pub fn stake_pool(&self) -> (r: &T)
        ensures
            *r == self.0@[0],
    {
        &self.0[0]
    }

    pub fn with_stake_pool(self, val: T) -> (r: Self)
        ensures
            r.0@ == self.0@.update(0, val),
    {
        let mut arr = self.0;
        arr.set(0, val);
        Self(arr)
    }

    pub fn staker(&self) -> (r: &T)
        ensures
            *r == self.0@[1],
    {
        &self.0[1]
    }

    pub fn with_staker(self, val: T) -> (r: Self)
        ensures
            r.0@ == self.0@.update(1, val),
    {
        let mut arr = self.0;
        arr.set(1, val);
        Self(arr)
    }

    pub fn withdraw_auth(&self) -> (r: &T)
        ensures
            *r == self.0@[2],
    {
        &self.0[2]
    }

    pub fn with_withdraw_auth(self, val: T) -> (r: Self)
        ensures
            r.0@ == self.0@.update(2, val),
    {
        let mut arr = self.0;
        arr.set(2, val);
        Self(arr)
    }

    pub fn validator_list(&self) -> (r: &T)
        ensures
            *r == self.0@[3],
    {
        &self.0[3]
    }

    pub fn with_validator_list(self, val: T) -> (r: Self)
        ensures
            r.0@ == self.0@.update(3, val),
    {
        let mut arr = self.0;
        arr.set(3, val);
        Self(arr)
    }

    pub fn reserve(&self) -> (r: &T)
        ensures
            *r == self.0@[4],
    {
        &self.0[4]
    }

    pub fn with_reserve(self, val: T) -> (r: Self)
        ensures
            r.0@ == self.0@.update(4, val),
    {
        let mut arr = self.0;
        arr.set(4, val);
        Self(arr)
    }

    pub fn ephemeral_stake(&self) -> (r: &T)
        ensures
            *r == self.0@[5],
    {
        &self.0[5]
    }

    pub fn with_ephemeral_stake(self, val: T) -> (r: Self)
        ensures
            r.0@ == self.0@.update(5, val),
    {
        let mut arr = self.0;
        arr.set(5, val);
        Self(arr)
    }

    pub fn transient_stake(&self) -> (r: &T)
        ensures
            *r == self.0@[6],
    {
        &self.0[6]
    }

    pub fn with_transient_stake(self, val: T) -> (r: Self)
        ensures
            r.0@ == self.0@.update(6, val),
    {
        let mut arr = self.0;
        arr.set(6, val);
        Self(arr)
    }

    pub fn validator_stake(&self) -> (r: &T)
        ensures
            *r == self.0@[7],
    {
        &self.0[7]
    }

    pub fn with_validator_stake(self, val: T) -> (r: Self)
        ensures
            r.0@ == self.0@.update(7, val),
    {
        let mut arr = self.0;
        arr.set(7, val);
        Self(arr)
    }

    pub fn validator_vote(&self) -> (r: &T)
        ensures
            *r == self.0@[8],
    {
        &self.0[8]
    }

    pub fn with_validator_vote(self, val: T) -> (r: Self)
        ensures
            r.0@ == self.0@.update(8, val),
    {
        let mut arr = self.0;
        arr.set(8, val);
        Self(arr)
    }

    pub fn sysvar_clock(&self) -> (r: &T)
        ensures
            *r == self.0@[9],
    {
        &self.0[9]
    }

    pub fn with_sysvar_clock(self, val: T) -> (r: Self)
        ensures
            r.0@ == self.0@.update(9, val),
    {
        let mut arr = self.0;
        arr.set(9, val);
        Self(arr)
    }

    pub fn sysvar_stake_history(&self) -> (r: &T)
        ensures
            *r == self.0@[10],
    {
        &self.0[10]
    }

    pub fn with_sysvar_stake_history(self, val: T) -> (r: Self)
        ensures
            r.0@ == self.0@.update(10, val),
    {
        let mut arr = self.0;
        arr.set(10, val);
        Self(arr)
    }

    pub fn sysvar_stake_config(&self) -> (r: &T)
        ensures
            *r == self.0@[11],
    {
        &self.0[11]
    }

    pub fn with_sysvar_stake_config(self, val: T) -> (r: Self)
        ensures
            r.0@ == self.0@.update(11, val),
    {
        let mut arr = self.0;
        arr.set(11, val);
        Self(arr)
    }

    pub fn system_program(&self) -> (r: &T)
        ensures
            *r == self.0@[12],
    {
        &self.0[12]
    }

    pub fn with_system_program(self, val: T) -> (r: Self)
        ensures
            r.0@ == self.0@.update(12, val),
    {
        let mut arr = self.0;
        arr.set(12, val);
        Self(arr)
    }

    pub fn stake_program(&self) -> (r: &T)
        ensures
            *r == self.0@[13],
    {
        &self.0[13]
    }

    pub fn with_stake_program(self, val: T) -> (r: Self)
        ensures
            r.0@ == self.0@.update(13, val),
    {
        let mut arr = self.0;
        arr.set(13, val);
        Self(arr)
    }
}

impl IncreaseAdditionalValidatorStakeIxAccs<[u8; 32]> {
    pub fn as_borrowed(&self) -> (r: IncreaseAdditionalValidatorStakeIxKeys<'_>)
        ensures
            forall|i: int| 0 <= i < 14 ==> *r.0@[i] == self.0@[i],
    {
        IncreaseAdditionalValidatorStakeIxAccs(
            [
                &self.0[0], &self.0[1], &self.0[2], &self.0[3], &self.0[4], &self.0[5],
                &self.0[6], &self.0[7], &self.0[8], &self.0[9], &self.0[10], &self.0[11],
                &self.0[12], &self.0[13],
            ],
        )
    }

    /// Fills in the accounts that the pool records.
    pub fn with_keys_from_stake_pool(self, pool: &StakePool) -> (r: Self)
        ensures
            r.0@ == self.0@
                .update(4, pool.reserve_stake)
                .update(3, pool.validator_list)
                .update(1, pool.staker),
    {
        self
            .with_reserve(pool.reserve_stake)
            .with_validator_list(pool.validator_list)
            .with_staker(pool.staker)
    }

    /// Fills in the program and sysvar accounts, whose addresses are fixed.
    pub fn with_consts(self) -> (r: Self)
        ensures
            r.0@ == self.0@
                .update(9, SYSVAR_CLOCK)
                .update(10, SYSVAR_STAKE_HISTORY)
                .update(11, SYSVAR_STAKE_CONFIG)
                .update(12, SYSTEM_PROGRAM)
                .update(13, STAKE_PROGRAM),
    {
        self
            .with_sysvar_clock(SYSVAR_CLOCK)
            .with_sysvar_stake_history(SYSVAR_STAKE_HISTORY)
            .with_sysvar_stake_config(SYSVAR_STAKE_CONFIG)
            .with_system_program(SYSTEM_PROGRAM)
            .with_stake_program(STAKE_PROGRAM)
    }
}

impl<'a> IncreaseAdditionalValidatorStakeIxAccs<&'a [u8; 32]> {
    pub fn into_owned(self) -> (r: IncreaseAdditionalValidatorStakeIxKeysOwned)
        ensures
            forall|i: int| 0 <= i < 14 ==> r.0@[i] == *self.0@[i],
    {
        IncreaseAdditionalValidatorStakeIxAccs(
            [
                *self.0[0], *self.0[1], *self.0[2], *self.0[3], *self.0[4], *self.0[5],
                *self.0[6], *self.0[7], *self.0[8], *self.0[9], *self.0[10], *self.0[11],
                *self.0[12], *self.0[13],
            ],
        )
    }

    /// Fills in the accounts that the pool records.
    pub fn with_keys_from_stake_pool(self, pool: &'a StakePool) -> (r: Self)
        ensures
            *r.0@[4] == pool.reserve_stake,
            *r.0@[3] == pool.validator_list,
            *r.0@[1] == pool.staker,
            forall|i: int| 0 <= i < 14 && i != 4 && i != 3 && i != 1 ==> #[trigger] r.0@[i] == self.0@[i],
    {
        self
            .with_reserve(&pool.reserve_stake)
            .with_validator_list(&pool.validator_list)
            .with_staker(&pool.staker)
    }

    /// Fills in the program and sysvar accounts, whose addresses are fixed.
    pub fn with_consts(self) -> (r: Self)
        ensures
            *r.0@[9] == SYSVAR_CLOCK,
            *r.0@[10] == SYSVAR_STAKE_HISTORY,
            *r.0@[11] == SYSVAR_STAKE_CONFIG,
            *r.0@[12] == SYSTEM_PROGRAM,
            *r.0@[13] == STAKE_PROGRAM,
            forall|i: int| 0 <= i < 14 && i != 9 && i != 10 && i != 11 && i != 12 && i != 13 ==> #[trigger] r.0@[i] == self.0@[i],
    {
        self
            .with_sysvar_clock(&SYSVAR_CLOCK)
            .with_sysvar_stake_history(&SYSVAR_STAKE_HISTORY)
            .with_sysvar_stake_config(&SYSVAR_STAKE_CONFIG)
            .with_system_program(&SYSTEM_PROGRAM)
            .with_stake_program(&STAKE_PROGRAM)
    }
}

/// Data of `IncreaseAdditionalValidatorStake`: the instruction index,
/// then the arguments in little-endian bytes.
#[derive(Debug, Clone, Copy, PartialEq, Eq, Hash)]
pub struct IncreaseAdditionalValidatorStakeIxData(pub [u8; 25]);

impl IncreaseAdditionalValidatorStakeIxData {
    pub fn new(lamports: u64, transient_stake_seed: u64) -> (r: Self)
        ensures
            r.0@ == seq![INSTRUCTION_IDX_INCREASE_ADDITIONAL_VALIDATOR_STAKE] + spec_u64_le(lamports) + spec_u64_le(transient_stake_seed) + spec_u64_le(0),
    {
        let lamports_le = u64_to_le_bytes(lamports);
        let transient_stake_seed_le = u64_to_le_bytes(transient_stake_seed);
        let zero = u64_to_le_bytes(0);
        let r = Self(
            [
                INSTRUCTION_IDX_INCREASE_ADDITIONAL_VALIDATOR_STAKE, lamports_le[0],
                lamports_le[1], lamports_le[2], lamports_le[3], lamports_le[4], lamports_le[5],
                lamports_le[6], lamports_le[7], transient_stake_seed_le[0],
                transient_stake_seed_le[1], transient_stake_seed_le[2],
                transient_stake_seed_le[3], transient_stake_seed_le[4],
                transient_stake_seed_le[5], transient_stake_seed_le[6],
                transient_stake_seed_le[7], zero[0], zero[1], zero[2], zero[3], zero[4], zero[5],
                zero[6], zero[7],
            ],
        );
        proof {
            assert(r.0@ =~= seq![INSTRUCTION_IDX_INCREASE_ADDITIONAL_VALIDATOR_STAKE] + spec_u64_le(lamports) + spec_u64_le(transient_stake_seed) + spec_u64_le(0));
        }
        r
    }

    pub fn to_buf(&self) -> (r: [u8; 25])
        ensures
            r == self.0,
    {
        self.0
    }
}

} // verus!
