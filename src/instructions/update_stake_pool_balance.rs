use vstd::prelude::*;

use crate::instructions::INSTRUCTION_IDX_UPDATE_STAKE_POOL_BALANCE;
use crate::pool::StakePool;

verus! {

pub const UPDATE_STAKE_POOL_BALANCE_IX_ACCS_LEN: usize = 7;

pub const UPDATE_STAKE_POOL_BALANCE_IX_ACCS_IDX_STAKE_POOL: usize = 0;

pub const UPDATE_STAKE_POOL_BALANCE_IX_ACCS_IDX_WITHDRAW_AUTH: usize = 1;

pub const UPDATE_STAKE_POOL_BALANCE_IX_ACCS_IDX_VALIDATOR_LIST: usize = 2;

pub const UPDATE_STAKE_POOL_BALANCE_IX_ACCS_IDX_RESERVE: usize = 3;

pub const UPDATE_STAKE_POOL_BALANCE_IX_ACCS_IDX_MANAGER_FEE: usize = 4;

pub const UPDATE_STAKE_POOL_BALANCE_IX_ACCS_IDX_POOL_MINT: usize = 5;

pub const UPDATE_STAKE_POOL_BALANCE_IX_ACCS_IDX_POOL_TOKEN_PROG: usize = 6;

/// Accounts of `UpdateStakePoolBalance`, one `T` per account, in order:
/// stake pool, withdraw auth, validator list, reserve, manager fee, pool mint,
/// pool token prog.
#[derive(Debug, Default, Clone, Copy, PartialEq, Eq, Hash)]
pub struct UpdateStakePoolBalanceIxAccs<T>(pub [T; 7]);

pub type UpdateStakePoolBalanceIxKeysOwned = UpdateStakePoolBalanceIxAccs<[u8; 32]>;

pub type UpdateStakePoolBalanceIxKeys<'a> = UpdateStakePoolBalanceIxAccs<&'a [u8; 32]>;

pub type UpdateStakePoolBalanceIxAccsFlag = UpdateStakePoolBalanceIxAccs<bool>;

/// Which of the accounts are written.
pub const UPDATE_STAKE_POOL_BALANCE_IX_IS_WRITER: [bool; 7] = [
    true, false, true, false, true, true, false,
];

/// Which of the accounts sign.
pub const UPDATE_STAKE_POOL_BALANCE_IX_IS_SIGNER: [bool; 7] = [
    false, false, false, false, false, false, false,
];

impl<T> UpdateStakePoolBalanceIxAccs<T> {
    pub fn new(arr: [T; 7]) -> (r: Self)
        ensures
            r.0 == arr,
    {
        Self(arr)
    }

    pub fn stake_pool(&self) -> (r: &T)
        ensures
            *r == self.0@[0],
    {
        &self.0[0]
    }

    pub fn with_stake_pool(self, val: T) -> (r: Self)
        ensures
            r.0@ == self.0@.update(0, val),
    {
        let mut arr = self.0;
        arr.set(0, val);
        Self(arr)
    }

    pub fn withdraw_auth(&self) -> (r: &T)
        ensures
            *r == self.0@[1],
    {
        &self.0[1]
    }

    pub fn with_withdraw_auth(self, val: T) -> (r: Self)
        ensures
            r.0@ == self.0@.update(1, val),
    {
        let mut arr = self.0;
        arr.set(1, val);
        Self(arr)
    }

    pub fn validator_list(&self) -> (r: &T)
        ensures
            *r == self.0@[2],
    {
        &self.0[2]
    }

    pub fn with_validator_list(self, val: T) -> (r: Self)
        ensures
            r.0@ == self.0@.update(2, val),
    {
        let mut arr = self.0;
        arr.set(2, val);
        Self(arr)
    }

    pub fn reserve(&self) -> (r: &T)
        ensures
            *r == self.0@[3],
    {
        &self.0[3]
    }

    pub fn with_reserve(self, val: T) -> (r: Self)
        ensures
            r.0@ == self.0@.update(3, val),
    {
        let mut arr = self.0;
        arr.set(3, val);
        Self(arr)
    }

    pub fn manager_fee(&self) -> (r: &T)
        ensures
            *r == self.0@[4],
    {
        &self.0[4]
    }

    pub fn with_manager_fee(self, val: T) -> (r: Self)
        ensures
            r.0@ == self.0@.update(4, val),
    {
        let mut arr = self.0;
        arr.set(4, val);
        Self(arr)
    }

    pub fn pool_mint(&self) -> (r: &T)
        ensures
            *r == self.0@[5],
    {
        &self.0[5]
    }

    pub fn with_pool_mint(self, val: T) -> (r: Self)
        ensures
            r.0@ == self.0@.update(5, val),
    {
        let mut arr = self.0;
        arr.set(5, val);
        Self(arr)
    }

    pub fn pool_token_prog(&self) -> (r: &T)
        ensures
            *r == self.0@[6],
    {
        &self.0[6]
    }

    pub fn with_pool_token_prog(self, val: T) -> (r: Self)
        ensures
            r.0@ == self.0@.update(6, val),
    {
        let mut arr = self.0;
        arr.set(6, val);
        Self(arr)
    }
}

impl UpdateStakePoolBalanceIxAccs<[u8; 32]> {
    pub fn as_borrowed(&self) -> (r: UpdateStakePoolBalanceIxKeys<'_>)
        ensures
            forall|i: int| 0 <= i < 7 ==> *r.0@[i] == self.0@[i],
    {
        UpdateStakePoolBalanceIxAccs(
            [
                &self.0[0], &self.0[1], &self.0[2], &self.0[3], &self.0[4], &self.0[5],
                &self.0[6],
            ],
        )
    }

    /// Fills in the accounts that the pool records.
    pub fn with_keys_from_stake_pool(self, pool: &StakePool) -> (r: Self)
        ensures
            r.0@ == self.0@
                .update(4, pool.manager_fee_account)
                .update(5, pool.pool_mint)
                .update(6, pool.token_program_id)
                .update(3, pool.reserve_stake)
                .update(2, pool.validator_list),
    {
        self
            .with_manager_fee(pool.manager_fee_account)
            .with_pool_mint(pool.pool_mint)
            .with_pool_token_prog(pool.token_program_id)
            .with_reserve(pool.reserve_stake)
            .with_validator_list(pool.validator_list)
    }
}

impl<'a> UpdateStakePoolBalanceIxAccs<&'a [u8; 32]> {
    pub fn into_owned(self) -> (r: UpdateStakePoolBalanceIxKeysOwned)
        ensures
            forall|i: int| 0 <= i < 7 ==> r.0@[i] == *self.0@[i],
    {
        UpdateStakePoolBalanceIxAccs(
            [
                *self.0[0], *self.0[1], *self.0[2], *self.0[3], *self.0[4], *self.0[5],
                *self.0[6],
            ],
        )
    }

    /// Fills in the accounts that the pool records.
    pub fn with_keys_from_stake_pool(self, pool: &'a StakePool) -> (r: Self)
        ensures
            *r.0@[4] == pool.manager_fee_account,
            *r.0@[5] == pool.pool_mint,
            *r.0@[6] == pool.token_program_id,
            *r.0@[3] == pool.reserve_stake,
            *r.0@[2] == pool.validator_list,
            forall|i: int| 0 <= i < 7 && i != 4 && i != 5 && i != 6 && i != 3 && i != 2 ==> #[trigger] r.0@[i] == self.0@[i],
    {
        self
            .with_manager_fee(&pool.manager_fee_account)
            .with_pool_mint(&pool.pool_mint)
            .with_pool_token_prog(&pool.token_program_id)
            .with_reserve(&pool.reserve_stake)
            .with_validator_list(&pool.validator_list)
    }
}

/// Data of `UpdateStakePoolBalance`: the instruction index.
#[derive(Debug, Clone, Copy, PartialEq, Eq, Hash)]
pub struct UpdateStakePoolBalanceIxData(pub [u8; 1]);

impl UpdateStakePoolBalanceIxData {
    pub fn new() -> (r: Self)
        ensures
            r.0@ == seq![INSTRUCTION_IDX_UPDATE_STAKE_POOL_BALANCE],
    {
        let r = Self(
            [
                INSTRUCTION_IDX_UPDATE_STAKE_POOL_BALANCE,
            ],
        );
        proof {
            assert(r.0@ =~= seq![INSTRUCTION_IDX_UPDATE_STAKE_POOL_BALANCE]);
        }
        r
    }

    pub fn to_buf(&self) -> (r: [u8; 1])
        ensures
            r == self.0,
    {
        self.0
    }
}

} // verus!
