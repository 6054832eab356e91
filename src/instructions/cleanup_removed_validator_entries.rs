use vstd::prelude::*;

use crate::instructions::INSTRUCTION_IDX_CLEANUP_REMOVED_VALIDATOR_ENTRIES;
use crate::pool::StakePool;

verus! {

pub const CLEANUP_REMOVED_VALIDATOR_ENTRIES_IX_ACCS_LEN: usize = 2;

pub const CLEANUP_REMOVED_VALIDATOR_ENTRIES_IX_ACCS_IDX_STAKE_POOL: usize = 0;

pub const CLEANUP_REMOVED_VALIDATOR_ENTRIES_IX_ACCS_IDX_VALIDATOR_LIST: usize = 1;

/// Accounts of `CleanupRemovedValidatorEntries`, one `T` per account, in order:
/// stake pool, validator list.
#[derive(Debug, Default, Clone, Copy, PartialEq, Eq, Hash)]
pub struct CleanupRemovedValidatorEntriesIxAccs<T>(pub [T; 2]);

pub type CleanupRemovedValidatorEntriesIxKeysOwned = CleanupRemovedValidatorEntriesIxAccs<[u8; 32]>;

pub type CleanupRemovedValidatorEntriesIxKeys<'a> = CleanupRemovedValidatorEntriesIxAccs<&'a [u8; 32]>;

pub type CleanupRemovedValidatorEntriesIxAccsFlag = CleanupRemovedValidatorEntriesIxAccs<bool>;

/// Which of the accounts are written.
pub const CLEANUP_REMOVED_VALIDATOR_ENTRIES_IX_IS_WRITER: [bool; 2] = [
    false, true,
];

/// Which of the accounts sign.
pub const CLEANUP_REMOVED_VALIDATOR_ENTRIES_IX_IS_SIGNER: [bool; 2] = [
    false, false,
];

impl<T> CleanupRemovedValidatorEntriesIxAccs<T> {
    pub fn new(arr: [T; 2]) -> (r: Self)
        ensures
            r.0 == arr,
    {
        Self(arr)
    }

    pub fn stake_pool(&self) -> (r: &T)
        ensures
            *r == self.0@[0],
    {
        &self.0[0]
    }

    pub fn with_stake_pool(self, val: T) -> (r: Self)
        ensures
            r.0@ == self.0@.update(0, val),
    {
        let mut arr = self.0;
        arr.set(0, val);
        Self(arr)
    }

    pub fn validator_list(&self) -> (r: &T)
        ensures
            *r == self.0@[1],
    {
        &self.0[1]
    }

    pub fn with_validator_list(self, val: T) -> (r: Self)
        ensures
            r.0@ == self.0@.update(1, val),
    {
        let mut arr = self.0;
        arr.set(1, val);
        Self(arr)
    }
}

impl CleanupRemovedValidatorEntriesIxAccs<[u8; 32]> {
    pub fn as_borrowed(&self) -> (r: CleanupRemovedValidatorEntriesIxKeys<'_>)
        ensures
            forall|i: int| 0 <= i < 2 ==> *r.0@[i] == self.0@[i],
    {
        CleanupRemovedValidatorEntriesIxAccs(
            [
                &self.0[0], &self.0[1],
            ],
        )
    }

    /// Fills in the accounts that the pool records.
    pub fn with_keys_from_stake_pool(self, pool: &StakePool) -> (r: Self)
        ensures
            r.0@ == self.0@.update(1, pool.validator_list),
    {
        self.with_validator_list(pool.validator_list)
    }
}

impl<'a> CleanupRemovedValidatorEntriesIxAccs<&'a [u8; 32]> {
    pub fn into_owned(self) -> (r: CleanupRemovedValidatorEntriesIxKeysOwned)
        ensures
            forall|i: int| 0 <= i < 2 ==> r.0@[i] == *self.0@[i],
    {
        CleanupRemovedValidatorEntriesIxAccs(
            [
                *self.0[0], *self.0[1],
            ],
        )
    }

    /// Fills in the accounts that the pool records.
    pub fn with_keys_from_stake_pool(self, pool: &'a StakePool) -> (r: Self)
        ensures
            *r.0@[1] == pool.validator_list,
            forall|i: int| 0 <= i < 2 && i != 1 ==> #[trigger] r.0@[i] == self.0@[i],
    {
        self.with_validator_list(&pool.validator_list)
    }
}

/// Data of `CleanupRemovedValidatorEntries`: the instruction index.
#[derive(Debug, Clone, Copy, PartialEq, Eq, Hash)]
pub struct CleanupRemovedValidatorEntriesIxData(pub [u8; 1]);

impl CleanupRemovedValidatorEntriesIxData {
    pub fn new() -> (r: Self)
        ensures
            r.0@ == seq![INSTRUCTION_IDX_CLEANUP_REMOVED_VALIDATOR_ENTRIES],
    {
        let r = Self(
            [
                INSTRUCTION_IDX_CLEANUP_REMOVED_VALIDATOR_ENTRIES,
            ],
        );
        proof {
            assert(r.0@ =~= seq![INSTRUCTION_IDX_CLEANUP_REMOVED_VALIDATOR_ENTRIES]);
        }
        r
    }

    pub fn to_buf(&self) -> (r: [u8; 1])
        ensures
            r == self.0,
    {
        self.0
    }
}

} // verus!
