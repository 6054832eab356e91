use vstd::prelude::*;

use crate::codec::{spec_u32_le, spec_u64_le, u32_to_le_bytes, u64_to_le_bytes};
use crate::instructions::INSTRUCTION_IDX_INITIALIZE;
use crate::typedefs::Fee;

verus! {

pub const INITIALIZE_IX_PREFIX_ACCS_LEN: usize = 9;

pub const INITIALIZE_IX_PREFIX_ACCS_IDX_STAKE_POOL: usize = 0;

pub const INITIALIZE_IX_PREFIX_ACCS_IDX_MANAGER: usize = 1;

pub const INITIALIZE_IX_PREFIX_ACCS_IDX_STAKER: usize = 2;

pub const INITIALIZE_IX_PREFIX_ACCS_IDX_WITHDRAW_AUTH: usize = 3;

pub const INITIALIZE_IX_PREFIX_ACCS_IDX_VALIDATOR_LIST: usize = 4;

pub const INITIALIZE_IX_PREFIX_ACCS_IDX_RESERVE: usize = 5;

pub const INITIALIZE_IX_PREFIX_ACCS_IDX_POOL_MINT: usize = 6;

pub const INITIALIZE_IX_PREFIX_ACCS_IDX_MANAGER_FEE: usize = 7;

pub const INITIALIZE_IX_PREFIX_ACCS_IDX_POOL_TOKEN_PROG: usize = 8;

/// Accounts of `Initialize`, one `T` per account, in order:
/// stake pool, manager, staker, withdraw auth, validator list, reserve, pool
/// mint, manager fee, pool token prog.
#[derive(Debug, Default, Clone, Copy, PartialEq, Eq, Hash)]
pub struct InitializeIxPrefixAccs<T>(pub [T; 9]);

pub type InitializeIxPrefixKeysOwned = InitializeIxPrefixAccs<[u8; 32]>;

pub type InitializeIxPrefixKeys<'a> = InitializeIxPrefixAccs<&'a [u8; 32]>;

pub type InitializeIxPrefixAccsFlag = InitializeIxPrefixAccs<bool>;

/// Which of the accounts are written.
pub const INITIALIZE_IX_PREFIX_IS_WRITER: [bool; 9] = [
    true, false, false, false, true, false, true, true, false,
];

/// Which of the accounts sign.
pub const INITIALIZE_IX_PREFIX_IS_SIGNER: [bool; 9] = [
    false, true, false, false, false, false, false, false, false,
];

impl<T> InitializeIxPrefixAccs<T> {
    pub fn new(arr: [T; 9]) -> (r: Self)
        ensures
            r.0 == arr,
    {
        Self(arr)
    }

    pub fn stake_pool(&self) -> (r: &T)
        ensures
            *r == self.0@[0],
    {
        &self.0[0]
    }

    pub fn with_stake_pool(self, val: T) -> (r: Self)
        ensures
            r.0@ == self.0@.update(0, val),
    {
        let mut arr = self.0;
        arr.set(0, val);
        Self(arr)
    }

    pub fn manager(&self) -> (r: &T)
        ensures
            *r == self.0@[1],
    {
        &self.0[1]
    }

    pub fn with_manager(self, val: T) -> (r: Self)
        ensures
            r.0@ == self.0@.update(1, val),
    {
        let mut arr = self.0;
        arr.set(1, val);
        Self(arr)
    }

    pub fn staker(&self) -> (r: &T)
        ensures
            *r == self.0@[2],
    {
        &self.0[2]
    }

    pub fn with_staker(self, val: T) -> (r: Self)
        ensures
            r.0@ == self.0@.update(2, val),
    {
        let mut arr = self.0;
        arr.set(2, val);
        Self(arr)
    }

    pub fn withdraw_auth(&self) -> (r: &T)
        ensures
            *r == self.0@[3],
    {
        &self.0[3]
    }

    pub fn with_withdraw_auth(self, val: T) -> (r: Self)
        ensures
            r.0@ == self.0@.update(3, val),
    {
        let mut arr = self.0;
        arr.set(3, val);
        Self(arr)
    }

    pub fn validator_list(&self) -> (r: &T)
        ensures
            *r == self.0@[4],
    {
        &self.0[4]
    }

    pub fn with_validator_list(self, val: T) -> (r: Self)
        ensures
            r.0@ == self.0@.update(4, val),
    {
        let mut arr = self.0;
        arr.set(4, val);
        Self(arr)
    }

    pub fn reserve(&self) -> (r: &T)
        ensures
            *r == self.0@[5],
    {
        &self.0[5]
    }

    pub fn with_reserve(self, val: T) -> (r: Self)
        ensures
            r.0@ == self.0@.update(5, val),
    {
        let mut arr = self.0;
        arr.set(5, val);
        Self(arr)
    }

    pub fn pool_mint(&self) -> (r: &T)
        ensures
            *r == self.0@[6],
    {
        &self.0[6]
    }

    pub fn with_pool_mint(self, val: T) -> (r: Self)
        ensures
            r.0@ == self.0@.update(6, val),
    {
        let mut arr = self.0;
        arr.set(6, val);
        Self(arr)
    }

    pub fn manager_fee(&self) -> (r: &T)
        ensures
            *r == self.0@[7],
    {
        &self.0[7]
    }

    pub fn with_manager_fee(self, val: T) -> (r: Self)
        ensures
            r.0@ == self.0@.update(7, val),
    {
        let mut arr = self.0;
        arr.set(7, val);
        Self(arr)
    }

    pub fn pool_token_prog(&self) -> (r: &T)
        ensures
            *r == self.0@[8],
    {
        &self.0[8]
    }

    pub fn with_pool_token_prog(self, val: T) -> (r: Self)
        ensures
            r.0@ == self.0@.update(8, val),
    {
        let mut arr = self.0;
        arr.set(8, val);
        Self(arr)
    }
}

impl InitializeIxPrefixAccs<[u8; 32]> {
    pub fn as_borrowed(&self) -> (r: InitializeIxPrefixKeys<'_>)
        ensures
            forall|i: int| 0 <= i < 9 ==> *r.0@[i] == self.0@[i],
    {
        InitializeIxPrefixAccs(
            [
                &self.0[0], &self.0[1], &self.0[2], &self.0[3], &self.0[4], &self.0[5],
                &self.0[6], &self.0[7], &self.0[8],
            ],
        )
    }
}

impl<'a> InitializeIxPrefixAccs<&'a [u8; 32]> {
    pub fn into_owned(self) -> (r: InitializeIxPrefixKeysOwned)
        ensures
            forall|i: int| 0 <= i < 9 ==> r.0@[i] == *self.0@[i],
    {
        InitializeIxPrefixAccs(
            [
                *self.0[0], *self.0[1], *self.0[2], *self.0[3], *self.0[4], *self.0[5],
                *self.0[6], *self.0[7], *self.0[8],
            ],
        )
    }
}

/// Data of `Initialize`: the instruction index,
/// then the arguments in little-endian bytes.
#[derive(Debug, Clone, Copy, PartialEq, Eq, Hash)]
pub struct InitializeIxData(pub [u8; 54]);

impl InitializeIxData {
    pub fn new(fee: Fee, withdrawal_fee: Fee, deposit_fee: Fee, referral_fee: u8, max_validators: u32) -> (r: Self)
        ensures
            r.0@ == seq![INSTRUCTION_IDX_INITIALIZE] + spec_u64_le(fee.denominator) + spec_u64_le(fee.numerator) + spec_u64_le(withdrawal_fee.denominator) + spec_u64_le(withdrawal_fee.numerator) + spec_u64_le(deposit_fee.denominator) + spec_u64_le(deposit_fee.numerator) + seq![referral_fee] + spec_u32_le(max_validators),
    {
        let fee_d = u64_to_le_bytes(fee.denominator);
        let fee_n = u64_to_le_bytes(fee.numerator);
        let withdrawal_fee_d = u64_to_le_bytes(withdrawal_fee.denominator);
        let withdrawal_fee_n = u64_to_le_bytes(withdrawal_fee.numerator);
        let deposit_fee_d = u64_to_le_bytes(deposit_fee.denominator);
        let deposit_fee_n = u64_to_le_bytes(deposit_fee.numerator);
        let max_validators_le = u32_to_le_bytes(max_validators);
        let r = Self(
            [
                INSTRUCTION_IDX_INITIALIZE, fee_d[0], fee_d[1], fee_d[2], fee_d[3], fee_d[4],
                fee_d[5], fee_d[6], fee_d[7], fee_n[0], fee_n[1], fee_n[2], fee_n[3], fee_n[4],
                fee_n[5], fee_n[6], fee_n[7], withdrawal_fee_d[0], withdrawal_fee_d[1],
                withdrawal_fee_d[2], withdrawal_fee_d[3], withdrawal_fee_d[4],
                withdrawal_fee_d[5], withdrawal_fee_d[6], withdrawal_fee_d[7],
                withdrawal_fee_n[0], withdrawal_fee_n[1], withdrawal_fee_n[2],
                withdrawal_fee_n[3], withdrawal_fee_n[4], withdrawal_fee_n[5],
                withdrawal_fee_n[6], withdrawal_fee_n[7], deposit_fee_d[0], deposit_fee_d[1],
                deposit_fee_d[2], deposit_fee_d[3], deposit_fee_d[4], deposit_fee_d[5],
                deposit_fee_d[6], deposit_fee_d[7], deposit_fee_n[0], deposit_fee_n[1],
                deposit_fee_n[2], deposit_fee_n[3], deposit_fee_n[4], deposit_fee_n[5],
                deposit_fee_n[6], deposit_fee_n[7], referral_fee, max_validators_le[0],
                max_validators_le[1], max_validators_le[2], max_validators_le[3],
            ],
        );
        proof {
            assert(r.0@ =~= seq![INSTRUCTION_IDX_INITIALIZE] + spec_u64_le(fee.denominator) + spec_u64_le(fee.numerator) + spec_u64_le(withdrawal_fee.denominator) + spec_u64_le(withdrawal_fee.numerator) + spec_u64_le(deposit_fee.denominator) + spec_u64_le(deposit_fee.numerator) + seq![referral_fee] + spec_u32_le(max_validators));
        }
        r
    }

    pub fn to_buf(&self) -> (r: [u8; 54])
        ensures
            r == self.0,
    {
        self.0
    }
}

} // verus!
