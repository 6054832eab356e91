use vstd::prelude::*;

use crate::consts::{STAKE_PROGRAM, SYSVAR_CLOCK, SYSVAR_STAKE_HISTORY};
use crate::instructions::INSTRUCTION_IDX_DEPOSIT_STAKE;
use crate::pool::StakePool;

verus! {

pub const DEPOSIT_STAKE_IX_ACCS_LEN: usize = 15;

pub const DEPOSIT_STAKE_IX_ACCS_IDX_STAKE_POOL: usize = 0;

pub const DEPOSIT_STAKE_IX_ACCS_IDX_VALIDATOR_LIST: usize = 1;

pub const DEPOSIT_STAKE_IX_ACCS_IDX_DEPOSIT_AUTH: usize = 2;

pub const DEPOSIT_STAKE_IX_ACCS_IDX_WITHDRAW_AUTH: usize = 3;

pub const DEPOSIT_STAKE_IX_ACCS_IDX_DEPOSIT_STAKE: usize = 4;

pub const DEPOSIT_STAKE_IX_ACCS_IDX_VALIDATOR_STAKE: usize = 5;

pub const DEPOSIT_STAKE_IX_ACCS_IDX_RESERVE_STAKE: usize = 6;

pub const DEPOSIT_STAKE_IX_ACCS_IDX_POOL_TOKENS_TO: usize = 7;

pub const DEPOSIT_STAKE_IX_ACCS_IDX_MANAGER_FEE: usize = 8;

pub const DEPOSIT_STAKE_IX_ACCS_IDX_REFERRAL_POOL_TOKENS: usize = 9;

pub const DEPOSIT_STAKE_IX_ACCS_IDX_POOL_MINT: usize = 10;

pub const DEPOSIT_STAKE_IX_ACCS_IDX_SYSVAR_CLOCK: usize = 11;

pub const DEPOSIT_STAKE_IX_ACCS_IDX_SYSVAR_STAKE_HISTORY: usize = 12;

pub const DEPOSIT_STAKE_IX_ACCS_IDX_TOKEN_PROGRAM: usize = 13;

pub const DEPOSIT_STAKE_IX_ACCS_IDX_STAKE_PROGRAM: usize = 14;

/// Accounts of `DepositStake`, one `T` per account, in order:
/// stake pool, validator list, deposit auth, withdraw auth, deposit stake,
/// validator stake, reserve stake, pool tokens to, manager fee, referral pool
/// tokens, pool mint, sysvar clock, sysvar stake history, token program, stake
/// program.
#[derive(Debug, Default, Clone, Copy, PartialEq, Eq, Hash)]
pub struct DepositStakeIxAccs<T>(pub [T; 15]);

pub type DepositStakeIxKeysOwned = DepositStakeIxAccs<[u8; 32]>;

pub type DepositStakeIxKeys<'a> = DepositStakeIxAccs<&'a [u8; 32]>;

pub type DepositStakeIxAccsFlag = DepositStakeIxAccs<bool>;

/// Which of the accounts are written.
pub const DEPOSIT_STAKE_IX_IS_WRITER: [bool; 15] = [
    true, true, false, false, true, true, true, true, true, true, true, false, false, false,
    false,
];

/// Which of the accounts sign.
pub const DEPOSIT_STAKE_IX_IS_SIGNER: [bool; 15] = [
    false, false, false, false, false, false, false, false, false, false, false, false, false,
    false, false,
];

impl<T> DepositStakeIxAccs<T> {
    pub fn new(arr: [T; 15]) -> (r: Self)
        ensures
            r.0 == arr,
    {
        Self(arr)
    }

    pub fn stake_pool(&self) -> (r: &T)
        ensures
            *r == self.0@[0],
    {
        &self.0[0]
    }

    pub fn with_stake_pool(self, val: T) -> (r: Self)
        ensures
            r.0@ == self.0@.update(0, val),
    {
        let mut arr = self.0;
        arr.set(0, val);
        Self(arr)
    }

    pub fn validator_list(&self) -> (r: &T)
        ensures
            *r == self.0@[1],
    {
        &self.0[1]
    }

    pub fn with_validator_list(self, val: T) -> (r: Self)
        ensures
            r.0@ == self.0@.update(1, val),
    {
        let mut arr = self.0;
        arr.set(1, val);
        Self(arr)
    }

    pub fn deposit_auth(&self) -> (r: &T)
        ensures
            *r == self.0@[2],
    {
        &self.0[2]
    }

    pub fn with_deposit_auth(self, val: T) -> (r: Self)
        ensures
            r.0@ == self.0@.update(2, val),
    {
        let mut arr = self.0;
        arr.set(2, val);
        Self(arr)
    }

    pub fn withdraw_auth(&self) -> (r: &T)
        ensures
            *r == self.0@[3],
    {
        &self.0[3]
    }

    pub fn with_withdraw_auth(self, val: T) -> (r: Self)
        ensures
            r.0@ == self.0@.update(3, val),
    {
        let mut arr = self.0;
        arr.set(3, val);
        Self(arr)
    }

    pub fn deposit_stake(&self) -> (r: &T)
        ensures
            *r == self.0@[4],
    {
        &self.0[4]
    }

    pub fn with_deposit_stake(self, val: T) -> (r: Self)
        ensures
            r.0@ == self.0@.update(4, val),
    {
        let mut arr = self.0;
        arr.set(4, val);
        Self(arr)
    }

    pub fn validator_stake(&self) -> (r: &T)
        ensures
            *r == self.0@[5],
    {
        &self.0[5]
    }

    pub fn with_validator_stake(self, val: T) -> (r: Self)
        ensures
            r.0@ == self.0@.update(5, val),
    {
        let mut arr = self.0;
        arr.set(5, val);
        Self(arr)
    }

    pub fn reserve_stake(&self) -> (r: &T)
        ensures
            *r == self.0@[6],
    {
        &self.0[6]
    }

    pub fn with_reserve_stake(self, val: T) -> (r: Self)
        ensures
            r.0@ == self.0@.update(6, val),
    {
        let mut arr = self.0;
        arr.set(6, val);
        Self(arr)
    }

    pub fn pool_tokens_to(&self) -> (r: &T)
        ensures
            *r == self.0@[7],
    {
        &self.0[7]
    }

    pub fn with_pool_tokens_to(self, val: T) -> (r: Self)
        ensures
            r.0@ == self.0@.update(7, val),
    {
        let mut arr = self.0;
        arr.set(7, val);
        Self(arr)
    }

    pub fn manager_fee(&self) -> (r: &T)
        ensures
            *r == self.0@[8],
    {
        &self.0[8]
    }

    pub fn with_manager_fee(self, val: T) -> (r: Self)
        ensures
            r.0@ == self.0@.update(8, val),
    {
        let mut arr = self.0;
        arr.set(8, val);
        Self(arr)
    }

    pub fn referral_pool_tokens(&self) -> (r: &T)
        ensures
            *r == self.0@[9],
    {
        &self.0[9]
    }

    pub fn with_referral_pool_tokens(self, val: T) -> (r: Self)
        ensures
            r.0@ == self.0@.update(9, val),
    {
        let mut arr = self.0;
        arr.set(9, val);
        Self(arr)
    }

    pub fn pool_mint(&self) -> (r: &T)
        ensures
            *r == self.0@[10],
    {
        &self.0[10]
    }

    pub fn with_pool_mint(self, val: T) -> (r: Self)
        ensures
            r.0@ == self.0@.update(10, val),
    {
        let mut arr = self.0;
        arr.set(10, val);
        Self(arr)
    }

    pub fn sysvar_clock(&self) -> (r: &T)
        ensures
            *r == self.0@[11],
    {
        &self.0[11]
    }

    pub fn with_sysvar_clock(self, val: T) -> (r: Self)
        ensures
            r.0@ == self.0@.update(11, val),
    {
        let mut arr = self.0;
        arr.set(11, val);
        Self(arr)
    }

    pub fn sysvar_stake_history(&self) -> (r: &T)
        ensures
            *r == self.0@[12],
    {
        &self.0[12]
    }

    pub fn with_sysvar_stake_history(self, val: T) -> (r: Self)
        ensures
            r.0@ == self.0@.update(12, val),
    {
        let mut arr = self.0;
        arr.set(12, val);
        Self(arr)
    }

    pub fn token_program(&self) -> (r: &T)
        ensures
            *r == self.0@[13],
    {
        &self.0[13]
    }

    pub fn with_token_program(self, val: T) -> (r: Self)
        ensures
            r.0@ == self.0@.update(13, val),
    {
        let mut arr = self.0;
        arr.set(13, val);
        Self(arr)
    }

    pub fn stake_program(&self) -> (r: &T)
        ensures
            *r == self.0@[14],
    {
        &self.0[14]
    }

    pub fn with_stake_program(self, val: T) -> (r: Self)
        ensures
            r.0@ == self.0@.update(14, val),
    {
        let mut arr = self.0;
        arr.set(14, val);
        Self(arr)
    }
}

impl DepositStakeIxAccs<[u8; 32]> {
    pub fn as_borrowed(&self) -> (r: DepositStakeIxKeys<'_>)
        ensures
            forall|i: int| 0 <= i < 15 ==> *r.0@[i] == self.0@[i],
    {
        DepositStakeIxAccs(
            [
                &self.0[0], &self.0[1], &self.0[2], &self.0[3], &self.0[4], &self.0[5],
                &self.0[6], &self.0[7], &self.0[8], &self.0[9], &self.0[10], &self.0[11],
                &self.0[12], &self.0[13], &self.0[14],
            ],
        )
    }

    /// Fills in the accounts that the pool records.
    pub fn with_keys_from_stake_pool(self, pool: &StakePool) -> (r: Self)
        ensures
            r.0@ == self.0@
                .update(1, pool.validator_list)
                .update(6, pool.reserve_stake)
                .update(8, pool.manager_fee_account)
                .update(10, pool.pool_mint)
                .update(13, pool.token_program_id),
    {
        self
            .with_validator_list(pool.validator_list)
            .with_reserve_stake(pool.reserve_stake)
            .with_manager_fee(pool.manager_fee_account)
            .with_pool_mint(pool.pool_mint)
            .with_token_program(pool.token_program_id)
    }

    /// Fills in the program and sysvar accounts, whose addresses are fixed.
    pub fn with_consts(self) -> (r: Self)
        ensures
            r.0@ == self.0@
                .update(11, SYSVAR_CLOCK)
                .update(12, SYSVAR_STAKE_HISTORY)
                .update(14, STAKE_PROGRAM),
    {
        self
            .with_sysvar_clock(SYSVAR_CLOCK)
            .with_sysvar_stake_history(SYSVAR_STAKE_HISTORY)
            .with_stake_program(STAKE_PROGRAM)
    }
}

impl<'a> DepositStakeIxAccs<&'a [u8; 32]> {
    pub fn into_owned(self) -> (r: DepositStakeIxKeysOwned)
        ensures
            forall|i: int| 0 <= i < 15 ==> r.0@[i] == *self.0@[i],
    {
        DepositStakeIxAccs(
            [
                *self.0[0], *self.0[1], *self.0[2], *self.0[3], *self.0[4], *self.0[5],
                *self.0[6], *self.0[7], *self.0[8], *self.0[9], *self.0[10], *self.0[11],
                *self.0[12], *self.0[13], *self.0[14],
            ],
        )
    }

    /// Fills in the accounts that the pool records.
    pub fn with_keys_from_stake_pool(self, pool: &'a StakePool) -> (r: Self)
        ensures
            *r.0@[1] == pool.validator_list,
            *r.0@[6] == pool.reserve_stake,
            *r.0@[8] == pool.manager_fee_account,
            *r.0@[10] == pool.pool_mint,
            *r.0@[13] == pool.token_program_id,
            forall|i: int| 0 <= i < 15 && i != 1 && i != 6 && i != 8 && i != 10 && i != 13 ==> #[trigger] r.0@[i] == self.0@[i],
    {
        self
            .with_validator_list(&pool.validator_list)
            .with_reserve_stake(&pool.reserve_stake)
            .with_manager_fee(&pool.manager_fee_account)
            .with_pool_mint(&pool.pool_mint)
            .with_token_program(&pool.token_program_id)
    }

    /// Fills in the program and sysvar accounts, whose addresses are fixed.
    pub fn with_consts(self) -> (r: Self)
        ensures
            *r.0@[11] == SYSVAR_CLOCK,
            *r.0@[12] == SYSVAR_STAKE_HISTORY,
            *r.0@[14] == STAKE_PROGRAM,
            forall|i: int| 0 <= i < 15 && i != 11 && i != 12 && i != 14 ==> #[trigger] r.0@[i] == self.0@[i],
    {
        self
            .with_sysvar_clock(&SYSVAR_CLOCK)
            .with_sysvar_stake_history(&SYSVAR_STAKE_HISTORY)
            .with_stake_program(&STAKE_PROGRAM)
    }
}

/// Data of `DepositStake`: the instruction index.
#[derive(Debug, Clone, Copy, PartialEq, Eq, Hash)]
pub struct DepositStakeIxData(pub [u8; 1]);

impl DepositStakeIxData {
    pub fn new() -> (r: Self)
        ensures
            r.0@ == seq![INSTRUCTION_IDX_DEPOSIT_STAKE],
    {
        let r = Self(
            [
                INSTRUCTION_IDX_DEPOSIT_STAKE,
            ],
        );
        proof {
            assert(r.0@ =~= seq![INSTRUCTION_IDX_DEPOSIT_STAKE]);
        }
        r
    }

    pub fn to_buf(&self) -> (r: [u8; 1])
        ensures
            r == self.0,
    {
        self.0
    }
}

} // verus!
