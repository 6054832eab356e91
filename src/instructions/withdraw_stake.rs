use vstd::prelude::*;

use crate::consts::{STAKE_PROGRAM, SYSVAR_CLOCK};
use crate::codec::{spec_u64_le, u64_to_le_bytes};
use crate::instructions::INSTRUCTION_IDX_WITHDRAW_STAKE;
use crate::pool::StakePool;

verus! {

pub const WITHDRAW_STAKE_IX_ACCS_LEN: usize = 13;

pub const WITHDRAW_STAKE_IX_ACCS_IDX_STAKE_POOL: usize = 0;

pub const WITHDRAW_STAKE_IX_ACCS_IDX_VALIDATOR_LIST: usize = 1;

pub const WITHDRAW_STAKE_IX_ACCS_IDX_WITHDRAW_AUTH: usize = 2;

pub const WITHDRAW_STAKE_IX_ACCS_IDX_STAKE_TO_SPLIT: usize = 3;

pub const WITHDRAW_STAKE_IX_ACCS_IDX_STAKE_TO_RECEIVE: usize = 4;

pub const WITHDRAW_STAKE_IX_ACCS_IDX_USER_STAKE_AUTH: usize = 5;

pub const WITHDRAW_STAKE_IX_ACCS_IDX_USER_TRANSFER_AUTH: usize = 6;

pub const WITHDRAW_STAKE_IX_ACCS_IDX_POOL_TOKENS_FROM: usize = 7;

pub const WITHDRAW_STAKE_IX_ACCS_IDX_MANAGER_FEE: usize = 8;

pub const WITHDRAW_STAKE_IX_ACCS_IDX_POOL_MINT: usize = 9;

pub const WITHDRAW_STAKE_IX_ACCS_IDX_SYSVAR_CLOCK: usize = 10;

pub const WITHDRAW_STAKE_IX_ACCS_IDX_TOKEN_PROGRAM: usize = 11;

pub const WITHDRAW_STAKE_IX_ACCS_IDX_STAKE_PROGRAM: usize = 12;

/// Accounts of `WithdrawStake`, one `T` per account, in order:
/// stake pool, validator list, withdraw auth, stake to split, stake to receive,
/// user stake auth, user transfer auth, pool tokens from, manager fee, pool
/// mint, sysvar clock, token program, stake program.
///
/// The stake account to receive must be a rent exempt uninitialized stake account.
#[derive(Debug, Default, Clone, Copy, PartialEq, Eq, Hash)]
pub struct WithdrawStakeIxAccs<T>(pub [T; 13]);

pub type WithdrawStakeIxKeysOwned = WithdrawStakeIxAccs<[u8; 32]>;

pub type WithdrawStakeIxKeys<'a> = WithdrawStakeIxAccs<&'a [u8; 32]>;

pub type WithdrawStakeIxAccsFlag = WithdrawStakeIxAccs<bool>;

/// Which of the accounts are written.
pub const WITHDRAW_STAKE_IX_PREFIX_IS_WRITER: [bool; 13] = [
    true, true, false, true, true, false, false, true, true, true, false, false, false,
];

/// Which of the accounts sign.
pub const WITHDRAW_STAKE_IX_PREFIX_IS_SIGNER: [bool; 13] = [
    false, false, false, false, false, false, true, false, false, false, false, false, false,
];

impl<T> WithdrawStakeIxAccs<T> {
    pub fn new(arr: [T; 13]) -> (r: Self)
        ensures
            r.0 == arr,
    {
        Self(arr)
    }

    pub fn stake_pool(&self) -> (r: &T)
        ensures
            *r == self.0@[0],
    {
        &self.0[0]
    }

    pub fn with_stake_pool(self, val: T) -> (r: Self)
        ensures
            r.0@ == self.0@.update(0, val),
    {
        let mut arr = self.0;
        arr.set(0, val);
        Self(arr)
    }

    pub fn validator_list(&self) -> (r: &T)
        ensures
            *r == self.0@[1],
    {
        &self.0[1]
    }

    pub fn with_validator_list(self, val: T) -> (r: Self)
        ensures
            r.0@ == self.0@.update(1, val),
    {
        let mut arr = self.0;
        arr.set(1, val);
        Self(arr)
    }

    pub fn withdraw_auth(&self) -> (r: &T)
        ensures
            *r == self.0@[2],
    {
        &self.0[2]
    }

    pub fn with_withdraw_auth(self, val: T) -> (r: Self)
        ensures
            r.0@ == self.0@.update(2, val),
    {
        let mut arr = self.0;
        arr.set(2, val);
        Self(arr)
    }

    pub fn stake_to_split(&self) -> (r: &T)
        ensures
            *r == self.0@[3],
    {
        &self.0[3]
    }

    pub fn with_stake_to_split(self, val: T) -> (r: Self)
        ensures
            r.0@ == self.0@.update(3, val),
    {
        let mut arr = self.0;
        arr.set(3, val);
        Self(arr)
    }

    pub fn stake_to_receive(&self) -> (r: &T)
        ensures
            *r == self.0@[4],
    {
        &self.0[4]
    }

    pub fn with_stake_to_receive(self, val: T) -> (r: Self)
        ensures
            r.0@ == self.0@.update(4, val),
    {
        let mut arr = self.0;
        arr.set(4, val);
        Self(arr)
    }

    pub fn user_stake_auth(&self) -> (r: &T)
        ensures
            *r == self.0@[5],
    {
        &self.0[5]
    }

    pub fn with_user_stake_auth(self, val: T) -> (r: Self)
        ensures
            r.0@ == self.0@.update(5, val),
    {
        let mut arr = self.0;
        arr.set(5, val);
        Self(arr)
    }

    pub fn user_transfer_auth(&self) -> (r: &T)
        ensures
            *r == self.0@[6],
    {
        &self.0[6]
    }

    pub fn with_user_transfer_auth(self, val: T) -> (r: Self)
        ensures
            r.0@ == self.0@.update(6, val),
    {
        let mut arr = self.0;
        arr.set(6, val);
        Self(arr)
    }

    pub fn pool_tokens_from(&self) -> (r: &T)
        ensures
            *r == self.0@[7],
    {
        &self.0[7]
    }

    pub fn with_pool_tokens_from(self, val: T) -> (r: Self)
        ensures
            r.0@ == self.0@.update(7, val),
    {
        let mut arr = self.0;
        arr.set(7, val);
        Self(arr)
    }

    pub fn manager_fee(&self) -> (r: &T)
        ensures
            *r == self.0@[8],
    {
        &self.0[8]
    }

    pub fn with_manager_fee(self, val: T) -> (r: Self)
        ensures
            r.0@ == self.0@.update(8, val),
    {
        let mut arr = self.0;
        arr.set(8, val);
        Self(arr)
    }

    pub fn pool_mint(&self) -> (r: &T)
        ensures
            *r == self.0@[9],
    {
        &self.0[9]
    }

    pub fn with_pool_mint(self, val: T) -> (r: Self)
        ensures
            r.0@ == self.0@.update(9, val),
    {
        let mut arr = self.0;
        arr.set(9, val);
        Self(arr)
    }

    pub fn sysvar_clock(&self) -> (r: &T)
        ensures
            *r == self.0@[10],
    {
        &self.0[10]
    }

    pub fn with_sysvar_clock(self, val: T) -> (r: Self)
        ensures
            r.0@ == self.0@.update(10, val),
    {
        let mut arr = self.0;
        arr.set(10, val);
        Self(arr)
    }

    pub fn token_program(&self) -> (r: &T)
        ensures
            *r == self.0@[11],
    {
        &self.0[11]
    }

    pub fn with_token_program(self, val: T) -> (r: Self)
        ensures
            r.0@ == self.0@.update(11, val),
    {
        let mut arr = self.0;
        arr.set(11, val);
        Self(arr)
    }

    pub fn stake_program(&self) -> (r: &T)
        ensures
            *r == self.0@[12],
    {
        &self.0[12]
    }

    pub fn with_stake_program(self, val: T) -> (r: Self)
        ensures
            r.0@ == self.0@.update(12, val),
    {
        let mut arr = self.0;
        arr.set(12, val);
        Self(arr)
    }
}

impl WithdrawStakeIxAccs<[u8; 32]> {
    pub fn as_borrowed(&self) -> (r: WithdrawStakeIxKeys<'_>)
        ensures
            forall|i: int| 0 <= i < 13 ==> *r.0@[i] == self.0@[i],
    {
        WithdrawStakeIxAccs(
            [
                &self.0[0], &self.0[1], &self.0[2], &self.0[3], &self.0[4], &self.0[5],
                &self.0[6], &self.0[7], &self.0[8], &self.0[9], &self.0[10], &self.0[11],
                &self.0[12],
            ],
        )
    }

    /// Fills in the accounts that the pool records.
    pub fn with_keys_from_stake_pool(self, pool: &StakePool) -> (r: Self)
        ensures
            r.0@ == self.0@
                .update(1, pool.validator_list)
                .update(8, pool.manager_fee_account)
                .update(9, pool.pool_mint)
                .update(11, pool.token_program_id),
    {
        self
            .with_validator_list(pool.validator_list)
            .with_manager_fee(pool.manager_fee_account)
            .with_pool_mint(pool.pool_mint)
            .with_token_program(pool.token_program_id)
    }

    /// Fills in the program and sysvar accounts, whose addresses are fixed.
    pub fn with_consts(self) -> (r: Self)
        ensures
            r.0@ == self.0@
                .update(12, STAKE_PROGRAM)
                .update(10, SYSVAR_CLOCK),
    {
        self
            .with_stake_program(STAKE_PROGRAM)
            .with_sysvar_clock(SYSVAR_CLOCK)
    }
}

impl<'a> WithdrawStakeIxAccs<&'a [u8; 32]> {
    pub fn into_owned(self) -> (r: WithdrawStakeIxKeysOwned)
        ensures
            forall|i: int| 0 <= i < 13 ==> r.0@[i] == *self.0@[i],
    {
        WithdrawStakeIxAccs(
            [
                *self.0[0], *self.0[1], *self.0[2], *self.0[3], *self.0[4], *self.0[5],
                *self.0[6], *self.0[7], *self.0[8], *self.0[9], *self.0[10], *self.0[11],
                *self.0[12],
            ],
        )
    }

    /// Fills in the accounts that the pool records.
    pub fn with_keys_from_stake_pool(self, pool: &'a StakePool) -> (r: Self)
        ensures
            *r.0@[1] == pool.validator_list,
            *r.0@[8] == pool.manager_fee_account,
            *r.0@[9] == pool.pool_mint,
            *r.0@[11] == pool.token_program_id,
            forall|i: int| 0 <= i < 13 && i != 1 && i != 8 && i != 9 && i != 11 ==> #[trigger] r.0@[i] == self.0@[i],
    {
        self
            .with_validator_list(&pool.validator_list)
            .with_manager_fee(&pool.manager_fee_account)
            .with_pool_mint(&pool.pool_mint)
            .with_token_program(&pool.token_program_id)
    }

    /// Fills in the program and sysvar accounts, whose addresses are fixed.
    pub fn with_consts(self) -> (r: Self)
        ensures
            *r.0@[12] == STAKE_PROGRAM,
            *r.0@[10] == SYSVAR_CLOCK,
            forall|i: int| 0 <= i < 13 && i != 12 && i != 10 ==> #[trigger] r.0@[i] == self.0@[i],
    {
        self
            .with_stake_program(&STAKE_PROGRAM)
            .with_sysvar_clock(&SYSVAR_CLOCK)
    }
}

/// Data of `WithdrawStake`: the instruction index,
/// then the arguments in little-endian bytes.
#[derive(Debug, Clone, Copy, PartialEq, Eq, Hash)]
pub struct WithdrawStakeIxData(pub [u8; 9]);

impl WithdrawStakeIxData {
    pub fn new(pool_tokens_in: u64) -> (r: Self)
        ensures
            r.0@ == seq![INSTRUCTION_IDX_WITHDRAW_STAKE] + spec_u64_le(pool_tokens_in),
    {
        let pool_tokens_in_le = u64_to_le_bytes(pool_tokens_in);
        let r = Self(
            [
                INSTRUCTION_IDX_WITHDRAW_STAKE, pool_tokens_in_le[0], pool_tokens_in_le[1],
                pool_tokens_in_le[2], pool_tokens_in_le[3], pool_tokens_in_le[4],
                pool_tokens_in_le[5], pool_tokens_in_le[6], pool_tokens_in_le[7],
            ],
        );
        proof {
            assert(r.0@ =~= seq![INSTRUCTION_IDX_WITHDRAW_STAKE] + spec_u64_le(pool_tokens_in));
        }
        r
    }

    pub fn to_buf(&self) -> (r: [u8; 9])
        ensures
            r == self.0,
    {
        self.0
    }
}

} // verus!
