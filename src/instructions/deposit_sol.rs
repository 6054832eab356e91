use vstd::prelude::*;

use crate::consts::SYSTEM_PROGRAM;
use crate::codec::{spec_u64_le, u64_to_le_bytes};
use crate::instructions::INSTRUCTION_IDX_DEPOSIT_SOL;
use crate::pool::StakePool;

verus! {

pub const DEPOSIT_SOL_IX_PREFIX_ACCS_LEN: usize = 10;

pub const DEPOSIT_SOL_IX_PREFIX_ACCS_IDX_STAKE_POOL: usize = 0;

pub const DEPOSIT_SOL_IX_PREFIX_ACCS_IDX_WITHDRAW_AUTH: usize = 1;

pub const DEPOSIT_SOL_IX_PREFIX_ACCS_IDX_RESERVE: usize = 2;

pub const DEPOSIT_SOL_IX_PREFIX_ACCS_IDX_FROM_USER_LAMPORTS: usize = 3;

pub const DEPOSIT_SOL_IX_PREFIX_ACCS_IDX_DEST_USER_POOL: usize = 4;

pub const DEPOSIT_SOL_IX_PREFIX_ACCS_IDX_MANAGER_FEE: usize = 5;

pub const DEPOSIT_SOL_IX_PREFIX_ACCS_IDX_REFERRER_FEE: usize = 6;

pub const DEPOSIT_SOL_IX_PREFIX_ACCS_IDX_POOL_MINT: usize = 7;

pub const DEPOSIT_SOL_IX_PREFIX_ACCS_IDX_SYSTEM_PROGRAM: usize = 8;

pub const DEPOSIT_SOL_IX_PREFIX_ACCS_IDX_TOKEN_PROGRAM: usize = 9;

/// Accounts of `DepositSol`, one `T` per account, in order:
/// stake pool, withdraw auth, reserve, from user lamports, dest user pool,
/// manager fee, referrer fee, pool mint, system program, token program.
///
/// If the pool has a SOL deposit authority, it follows this prefix as a signer.
#[derive(Debug, Default, Clone, Copy, PartialEq, Eq, Hash)]
pub struct DepositSolIxPrefixAccs<T>(pub [T; 10]);

pub type DepositSolIxPrefixKeysOwned = DepositSolIxPrefixAccs<[u8; 32]>;

pub type DepositSolIxPrefixKeys<'a> = DepositSolIxPrefixAccs<&'a [u8; 32]>;

pub type DepositSolIxPrefixAccsFlag = DepositSolIxPrefixAccs<bool>;

/// Which of the accounts are written.
pub const DEPOSIT_SOL_IX_PREFIX_IS_WRITER: [bool; 10] = [
    true, false, true, true, true, true, true, true, false, false,
];

/// Which of the accounts sign.
pub const DEPOSIT_SOL_IX_PREFIX_IS_SIGNER: [bool; 10] = [
    false, false, false, true, false, false, false, false, false, false,
];

impl<T> DepositSolIxPrefixAccs<T> {
    pub fn new(arr: [T; 10]) -> (r: Self)
        ensures
            r.0 == arr,
    {
        Self(arr)
    }

    pub fn stake_pool(&self) -> (r: &T)
        ensures
            *r == self.0@[0],
    {
        &self.0[0]
    }

    pub fn with_stake_pool(self, val: T) -> (r: Self)
        ensures
            r.0@ == self.0@.update(0, val),
    {
        let mut arr = self.0;
        arr.set(0, val);
        Self(arr)
    }

    pub fn withdraw_auth(&self) -> (r: &T)
        ensures
            *r == self.0@[1],
    {
        &self.0[1]
    }

    pub fn with_withdraw_auth(self, val: T) -> (r: Self)
        ensures
            r.0@ == self.0@.update(1, val),
    {
        let mut arr = self.0;
        arr.set(1, val);
        Self(arr)
    }

    pub fn reserve(&self) -> (r: &T)
        ensures
            *r == self.0@[2],
    {
        &self.0[2]
    }

    pub fn with_reserve(self, val: T) -> (r: Self)
        ensures
            r.0@ == self.0@.update(2, val),
    {
        let mut arr = self.0;
        arr.set(2, val);
        Self(arr)
    }

    pub fn from_user_lamports(&self) -> (r: &T)
        ensures
            *r == self.0@[3],
    {
        &self.0[3]
    }

    pub fn with_from_user_lamports(self, val: T) -> (r: Self)
        ensures
            r.0@ == self.0@.update(3, val),
    {
        let mut arr = self.0;
        arr.set(3, val);
        Self(arr)
    }

    pub fn dest_user_pool(&self) -> (r: &T)
        ensures
            *r == self.0@[4],
    {
        &self.0[4]
    }

    pub fn with_dest_user_pool(self, val: T) -> (r: Self)
        ensures
            r.0@ == self.0@.update(4, val),
    {
        let mut arr = self.0;
        arr.set(4, val);
        Self(arr)
    }

    pub fn manager_fee(&self) -> (r: &T)
        ensures
            *r == self.0@[5],
    {
        &self.0[5]
    }

    pub fn with_manager_fee(self, val: T) -> (r: Self)
        ensures
            r.0@ == self.0@.update(5, val),
    {
        let mut arr = self.0;
        arr.set(5, val);
        Self(arr)
    }

    pub fn referrer_fee(&self) -> (r: &T)
        ensures
            *r == self.0@[6],
    {
        &self.0[6]
    }

    pub fn with_referrer_fee(self, val: T) -> (r: Self)
        ensures
            r.0@ == self.0@.update(6, val),
    {
        let mut arr = self.0;
        arr.set(6, val);
        Self(arr)
    }

    pub fn pool_mint(&self) -> (r: &T)
        ensures
            *r == self.0@[7],
    {
        &self.0[7]
    }

    pub fn with_pool_mint(self, val: T) -> (r: Self)
        ensures
            r.0@ == self.0@.update(7, val),
    {
        let mut arr = self.0;
        arr.set(7, val);
        Self(arr)
    }

    pub fn system_program(&self) -> (r: &T)
        ensures
            *r == self.0@[8],
    {
        &self.0[8]
    }

    pub fn with_system_program(self, val: T) -> (r: Self)
        ensures
            r.0@ == self.0@.update(8, val),
    {
        let mut arr = self.0;
        arr.set(8, val);
        Self(arr)
    }

    pub fn token_program(&self) -> (r: &T)
        ensures
            *r == self.0@[9],
    {
        &self.0[9]
    }

    pub fn with_token_program(self, val: T) -> (r: Self)
        ensures
            r.0@ == self.0@.update(9, val),
    {
        let mut arr = self.0;
        arr.set(9, val);
        Self(arr)
    }
}

impl DepositSolIxPrefixAccs<[u8; 32]> {
    pub fn as_borrowed(&self) -> (r: DepositSolIxPrefixKeys<'_>)
        ensures
            forall|i: int| 0 <= i < 10 ==> *r.0@[i] == self.0@[i],
    {
        DepositSolIxPrefixAccs(
            [
                &self.0[0], &self.0[1], &self.0[2], &self.0[3], &self.0[4], &self.0[5],
                &self.0[6], &self.0[7], &self.0[8], &self.0[9],
            ],
        )
    }

    /// Fills in the accounts that the pool records.
    pub fn with_keys_from_stake_pool(self, pool: &StakePool) -> (r: Self)
        ensures
            r.0@ == self.0@
                .update(2, pool.reserve_stake)
                .update(5, pool.manager_fee_account)
                .update(7, pool.pool_mint)
                .update(9, pool.token_program_id),
    {
        self
            .with_reserve(pool.reserve_stake)
            .with_manager_fee(pool.manager_fee_account)
            .with_pool_mint(pool.pool_mint)
            .with_token_program(pool.token_program_id)
    }

    /// Fills in the program and sysvar accounts, whose addresses are fixed.
    pub fn with_consts(self) -> (r: Self)
        ensures
            r.0@ == self.0@.update(8, SYSTEM_PROGRAM),
    {
        self.with_system_program(SYSTEM_PROGRAM)
    }
}

impl<'a> DepositSolIxPrefixAccs<&'a [u8; 32]> {
    pub fn into_owned(self) -> (r: DepositSolIxPrefixKeysOwned)
        ensures
            forall|i: int| 0 <= i < 10 ==> r.0@[i] == *self.0@[i],
    {
        DepositSolIxPrefixAccs(
            [
                *self.0[0], *self.0[1], *self.0[2], *self.0[3], *self.0[4], *self.0[5],
                *self.0[6], *self.0[7], *self.0[8], *self.0[9],
            ],
        )
    }

    /// Fills in the accounts that the pool records.
    pub fn with_keys_from_stake_pool(self, pool: &'a StakePool) -> (r: Self)
        ensures
            *r.0@[2] == pool.reserve_stake,
            *r.0@[5] == pool.manager_fee_account,
            *r.0@[7] == pool.pool_mint,
            *r.0@[9] == pool.token_program_id,
            forall|i: int| 0 <= i < 10 && i != 2 && i != 5 && i != 7 && i != 9 ==> #[trigger] r.0@[i] == self.0@[i],
    {
        self
            .with_reserve(&pool.reserve_stake)
            .with_manager_fee(&pool.manager_fee_account)
            .with_pool_mint(&pool.pool_mint)
            .with_token_program(&pool.token_program_id)
    }

    /// Fills in the program and sysvar accounts, whose addresses are fixed.
    pub fn with_consts(self) -> (r: Self)
        ensures
            *r.0@[8] == SYSTEM_PROGRAM,
            forall|i: int| 0 <= i < 10 && i != 8 ==> #[trigger] r.0@[i] == self.0@[i],
    {
        self.with_system_program(&SYSTEM_PROGRAM)
    }
}

/// Data of `DepositSol`: the instruction index,
/// then the arguments in little-endian bytes.
#[derive(Debug, Clone, Copy, PartialEq, Eq, Hash)]
pub struct DepositSolIxData(pub [u8; 9]);

impl DepositSolIxData {
    pub fn new(deposit_lamports: u64) -> (r: Self)
        ensures
            r.0@ == seq![INSTRUCTION_IDX_DEPOSIT_SOL] + spec_u64_le(deposit_lamports),
    {
        let deposit_lamports_le = u64_to_le_bytes(deposit_lamports);
        let r = Self(
            [
                INSTRUCTION_IDX_DEPOSIT_SOL, deposit_lamports_le[0], deposit_lamports_le[1],
                deposit_lamports_le[2], deposit_lamports_le[3], deposit_lamports_le[4],
                deposit_lamports_le[5], deposit_lamports_le[6], deposit_lamports_le[7],
            ],
        );
        proof {
            assert(r.0@ =~= seq![INSTRUCTION_IDX_DEPOSIT_SOL] + spec_u64_le(deposit_lamports));
        }
        r
    }

    pub fn to_buf(&self) -> (r: [u8; 9])
        ensures
            r == self.0,
    {
        self.0
    }
}

} // verus!
