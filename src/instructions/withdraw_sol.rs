use vstd::prelude::*;

use crate::consts::{STAKE_PROGRAM, SYSVAR_CLOCK, SYSVAR_STAKE_HISTORY};
use crate::codec::{spec_u64_le, u64_to_le_bytes};
use crate::instructions::INSTRUCTION_IDX_WITHDRAW_SOL;
use crate::pool::StakePool;

verus! {

pub const WITHDRAW_SOL_IX_PREFIX_ACCS_LEN: usize = 12;

pub const WITHDRAW_SOL_IX_PREFIX_ACCS_IDX_STAKE_POOL: usize = 0;

pub const WITHDRAW_SOL_IX_PREFIX_ACCS_IDX_WITHDRAW_AUTH: usize = 1;

pub const WITHDRAW_SOL_IX_PREFIX_ACCS_IDX_USER_TRANSFER_AUTH: usize = 2;

pub const WITHDRAW_SOL_IX_PREFIX_ACCS_IDX_POOL_TOKENS_FROM: usize = 3;

pub const WITHDRAW_SOL_IX_PREFIX_ACCS_IDX_RESERVE_STAKE: usize = 4;

pub const WITHDRAW_SOL_IX_PREFIX_ACCS_IDX_LAMPORTS_TO: usize = 5;

pub const WITHDRAW_SOL_IX_PREFIX_ACCS_IDX_MANAGER_FEE: usize = 6;

pub const WITHDRAW_SOL_IX_PREFIX_ACCS_IDX_POOL_MINT: usize = 7;

pub const WITHDRAW_SOL_IX_PREFIX_ACCS_IDX_SYSVAR_CLOCK: usize = 8;

pub const WITHDRAW_SOL_IX_PREFIX_ACCS_IDX_SYSVAR_STAKE_HISTORY: usize = 9;

pub const WITHDRAW_SOL_IX_PREFIX_ACCS_IDX_STAKE_PROGRAM: usize = 10;

pub const WITHDRAW_SOL_IX_PREFIX_ACCS_IDX_TOKEN_PROGRAM: usize = 11;

/// Accounts of `WithdrawSol`, one `T` per account, in order:
/// stake pool, withdraw auth, user transfer auth, pool tokens from, reserve
/// stake, lamports to, manager fee, pool mint, sysvar clock, sysvar stake
/// history, stake program, token program.
///
/// If the pool has a SOL withdraw authority, it follows this prefix as a signer.
#[derive(Debug, Default, Clone, Copy, PartialEq, Eq, Hash)]
pub struct WithdrawSolIxPrefixAccs<T>(pub [T; 12]);

pub type WithdrawSolIxPrefixKeysOwned = WithdrawSolIxPrefixAccs<[u8; 32]>;

pub type WithdrawSolIxPrefixKeys<'a> = WithdrawSolIxPrefixAccs<&'a [u8; 32]>;

pub type WithdrawSolIxPrefixAccsFlag = WithdrawSolIxPrefixAccs<bool>;

/// Which of the accounts are written.
pub const WITHDRAW_SOL_IX_PREFIX_IS_WRITER: [bool; 12] = [
    true, false, false, true, true, true, true, true, false, false, false, false,
];

/// Which of the accounts sign.
pub const WITHDRAW_SOL_IX_PREFIX_IS_SIGNER: [bool; 12] = [
    false, false, true, false, false, false, false, false, false, false, false, false,
];

impl<T> WithdrawSolIxPrefixAccs<T> {
    pub fn new(arr: [T; 12]) -> (r: Self)
        ensures
            r.0 == arr,
    {
        Self(arr)
    }

    pub fn stake_pool(&self) -> (r: &T)
        ensures
            *r == self.0@[0],
    {
        &self.0[0]
    }

    pub fn with_stake_pool(self, val: T) -> (r: Self)
        ensures
            r.0@ == self.0@.update(0, val),
    {
        let mut arr = self.0;
        arr.set(0, val);
        Self(arr)
    }

    pub fn withdraw_auth(&self) -> (r: &T)
        ensures
            *r == self.0@[1],
    {
        &self.0[1]
    }

    pub fn with_withdraw_auth(self, val: T) -> (r: Self)
        ensures
            r.0@ == self.0@.update(1, val),
    {
        let mut arr = self.0;
        arr.set(1, val);
        Self(arr)
    }

    pub fn user_transfer_auth(&self) -> (r: &T)
        ensures
            *r == self.0@[2],
    {
        &self.0[2]
    }

    pub fn with_user_transfer_auth(self, val: T) -> (r: Self)
        ensures
            r.0@ == self.0@.update(2, val),
    {
        let mut arr = self.0;
        arr.set(2, val);
        Self(arr)
    }

    pub fn pool_tokens_from(&self) -> (r: &T)
        ensures
            *r == self.0@[3],
    {
        &self.0[3]
    }

    pub fn with_pool_tokens_from(self, val: T) -> (r: Self)
        ensures
            r.0@ == self.0@.update(3, val),
    {
        let mut arr = self.0;
        arr.set(3, val);
        Self(arr)
    }

    pub fn reserve_stake(&self) -> (r: &T)
        ensures
            *r == self.0@[4],
    {
        &self.0[4]
    }

    pub fn with_reserve_stake(self, val: T) -> (r: Self)
        ensures
            r.0@ == self.0@.update(4, val),
    {
        let mut arr = self.0;
        arr.set(4, val);
        Self(arr)
    }

    pub fn lamports_to(&self) -> (r: &T)
        ensures
            *r == self.0@[5],
    {
        &self.0[5]
    }

    pub fn with_lamports_to(self, val: T) -> (r: Self)
        ensures
            r.0@ == self.0@.update(5, val),
    {
        let mut arr = self.0;
        arr.set(5, val);
        Self(arr)
    }

    pub fn manager_fee(&self) -> (r: &T)
        ensures
            *r == self.0@[6],
    {
        &self.0[6]
    }

    pub fn with_manager_fee(self, val: T) -> (r: Self)
        ensures
            r.0@ == self.0@.update(6, val),
    {
        let mut arr = self.0;
        arr.set(6, val);
        Self(arr)
    }

    pub fn pool_mint(&self) -> (r: &T)
        ensures
            *r == self.0@[7],
    {
        &self.0[7]
    }

    pub fn with_pool_mint(self, val: T) -> (r: Self)
        ensures
            r.0@ == self.0@.update(7, val),
    {
        let mut arr = self.0;
        arr.set(7, val);
        Self(arr)
    }

    pub fn sysvar_clock(&self) -> (r: &T)
        ensures
            *r == self.0@[8],
    {
        &self.0[8]
    }

    pub fn with_sysvar_clock(self, val: T) -> (r: Self)
        ensures
            r.0@ == self.0@.update(8, val),
    {
        let mut arr = self.0;
        arr.set(8, val);
        Self(arr)
    }

    pub fn sysvar_stake_history(&self) -> (r: &T)
        ensures
            *r == self.0@[9],
    {
        &self.0[9]
    }

    pub fn with_sysvar_stake_history(self, val: T) -> (r: Self)
        ensures
            r.0@ == self.0@.update(9, val),
    {
        let mut arr = self.0;
        arr.set(9, val);
        Self(arr)
    }

    pub fn stake_program(&self) -> (r: &T)
        ensures
            *r == self.0@[10],
    {
        &self.0[10]
    }

    pub fn with_stake_program(self, val: T) -> (r: Self)
        ensures
            r.0@ == self.0@.update(10, val),
    {
        let mut arr = self.0;
        arr.set(10, val);
        Self(arr)
    }

    pub fn token_program(&self) -> (r: &T)
        ensures
            *r == self.0@[11],
    {
        &self.0[11]
    }

    pub fn with_token_program(self, val: T) -> (r: Self)
        ensures
            r.0@ == self.0@.update(11, val),
    {
        let mut arr = self.0;
        arr.set(11, val);
        Self(arr)
    }
}

impl WithdrawSolIxPrefixAccs<[u8; 32]> {
    pub fn as_borrowed(&self) -> (r: WithdrawSolIxPrefixKeys<'_>)
        ensures
            forall|i: int| 0 <= i < 12 ==> *r.0@[i] == self.0@[i],
    {
        WithdrawSolIxPrefixAccs(
            [
                &self.0[0], &self.0[1], &self.0[2], &self.0[3], &self.0[4], &self.0[5],
                &self.0[6], &self.0[7], &self.0[8], &self.0[9], &self.0[10], &self.0[11],
            ],
        )
    }

    /// Fills in the accounts that the pool records.
    pub fn with_keys_from_stake_pool(self, pool: &StakePool) -> (r: Self)
        ensures
            r.0@ == self.0@
                .update(4, pool.reserve_stake)
                .update(6, pool.manager_fee_account)
                .update(7, pool.pool_mint)
                .update(11, pool.token_program_id),
    {
        self
            .with_reserve_stake(pool.reserve_stake)
            .with_manager_fee(pool.manager_fee_account)
            .with_pool_mint(pool.pool_mint)
            .with_token_program(pool.token_program_id)
    }

    /// Fills in the program and sysvar accounts, whose addresses are fixed.
    pub fn with_consts(self) -> (r: Self)
        ensures
            r.0@ == self.0@
                .update(10, STAKE_PROGRAM)
                .update(9, SYSVAR_STAKE_HISTORY)
                .update(8, SYSVAR_CLOCK),
    {
        self
            .with_stake_program(STAKE_PROGRAM)
            .with_sysvar_stake_history(SYSVAR_STAKE_HISTORY)
            .with_sysvar_clock(SYSVAR_CLOCK)
    }
}

impl<'a> WithdrawSolIxPrefixAccs<&'a [u8; 32]> {
    pub fn into_owned(self) -> (r: WithdrawSolIxPrefixKeysOwned)
        ensures
            forall|i: int| 0 <= i < 12 ==> r.0@[i] == *self.0@[i],
    {
        WithdrawSolIxPrefixAccs(
            [
                *self.0[0], *self.0[1], *self.0[2], *self.0[3], *self.0[4], *self.0[5],
                *self.0[6], *self.0[7], *self.0[8], *self.0[9], *self.0[10], *self.0[11],
            ],
        )
    }

    /// Fills in the accounts that the pool records.
    pub fn with_keys_from_stake_pool(self, pool: &'a StakePool) -> (r: Self)
        ensures
            *r.0@[4] == pool.reserve_stake,
            *r.0@[6] == pool.manager_fee_account,
            *r.0@[7] == pool.pool_mint,
            *r.0@[11] == pool.token_program_id,
            forall|i: int| 0 <= i < 12 && i != 4 && i != 6 && i != 7 && i != 11 ==> #[trigger] r.0@[i] == self.0@[i],
    {
        self
            .with_reserve_stake(&pool.reserve_stake)
            .with_manager_fee(&pool.manager_fee_account)
            .with_pool_mint(&pool.pool_mint)
            .with_token_program(&pool.token_program_id)
    }

    /// Fills in the program and sysvar accounts, whose addresses are fixed.
    pub fn with_consts(self) -> (r: Self)
        ensures
            *r.0@[10] == STAKE_PROGRAM,
            *r.0@[9] == SYSVAR_STAKE_HISTORY,
            *r.0@[8] == SYSVAR_CLOCK,
            forall|i: int| 0 <= i < 12 && i != 10 && i != 9 && i != 8 ==> #[trigger] r.0@[i] == self.0@[i],
    {
        self
            .with_stake_program(&STAKE_PROGRAM)
            .with_sysvar_stake_history(&SYSVAR_STAKE_HISTORY)
            .with_sysvar_clock(&SYSVAR_CLOCK)
    }
}

/// Data of `WithdrawSol`: the instruction index,
/// then the arguments in little-endian bytes.
#[derive(Debug, Clone, Copy, PartialEq, Eq, Hash)]
pub struct WithdrawSolIxData(pub [u8; 9]);

impl WithdrawSolIxData {
    pub fn new(pool_tokens_in: u64) -> (r: Self)
        ensures
            r.0@ == seq![INSTRUCTION_IDX_WITHDRAW_SOL] + spec_u64_le(pool_tokens_in),
    {
        let pool_tokens_in_le = u64_to_le_bytes(pool_tokens_in);
        let r = Self(
            [
                INSTRUCTION_IDX_WITHDRAW_SOL, pool_tokens_in_le[0], pool_tokens_in_le[1],
                pool_tokens_in_le[2], pool_tokens_in_le[3], pool_tokens_in_le[4],
                pool_tokens_in_le[5], pool_tokens_in_le[6], pool_tokens_in_le[7],
            ],
        );
        proof {
            assert(r.0@ =~= seq![INSTRUCTION_IDX_WITHDRAW_SOL] + spec_u64_le(pool_tokens_in));
        }
        r
    }

    pub fn to_buf(&self) -> (r: [u8; 9])
        ensures
            r == self.0,
    {
        self.0
    }
}

} // verus!
