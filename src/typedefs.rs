use vstd::prelude::*;

use crate::ratio::CeilFee;

verus! {

/// What kind of account a buffer holds.
#[derive(Debug, Clone, Copy, PartialEq, Eq, Hash, Structural)]
pub enum AccountType {
    Uninitialized,
    StakePool,
    ValidatorList,
}

impl AccountType {
    /// The one-byte discriminant of the wire format.
    pub open spec fn spec_tag(self) -> u8 {
        match self {
            AccountType::Uninitialized => 0,
            AccountType::StakePool => 1,
            AccountType::ValidatorList => 2,
        }
    }

    pub open spec fn spec_from_tag(b: u8) -> Option<AccountType> {
        if b == 0 {
            Some(AccountType::Uninitialized)
        } else if b == 1 {
            Some(AccountType::StakePool)
        } else if b == 2 {
            Some(AccountType::ValidatorList)
        } else {
            None
        }
    }

    pub fn tag(&self) -> (r: u8)
        ensures
            r == self.spec_tag(),
    {
        match self {
            AccountType::Uninitialized => 0,
            AccountType::StakePool => 1,
            AccountType::ValidatorList => 2,
        }
    }

    pub fn from_tag(b: u8) -> (r: Option<AccountType>)
        ensures
            r == AccountType::spec_from_tag(b),
    {
        if b == 0 {
            Some(AccountType::Uninitialized)
        } else if b == 1 {
            Some(AccountType::StakePool)
        } else if b == 2 {
            Some(AccountType::ValidatorList)
        } else {
            None
        }
    }
}

impl Default for AccountType {
    fn default() -> (r: Self)
        ensures
            r == AccountType::Uninitialized,
    {
        AccountType::Uninitialized
    }
}

/// Status of a validator's stake accounts in the pool.
#[derive(Debug, Clone, Copy, PartialEq, Eq, Hash, Structural)]
pub enum StakeStatus {
    /// Stake account is active, there may be a transient stake as well
    Active,
    /// Only transient stake account exists, when a transient stake is
    /// deactivating during validator removal
    DeactivatingTransient,
    /// No more validator stake accounts exist, entry ready for removal during
    /// `UpdateStakePoolBalance`
    ReadyForRemoval,
    /// Only the validator stake account is deactivating, no transient stake
    /// account exists
    DeactivatingValidator,
    /// Both the transient and validator stake account are deactivating, when
    /// a validator is removed with a transient stake active
    DeactivatingAll,
}

impl StakeStatus {
    /// The one-byte discriminant of the wire format, in declaration order.
    pub open spec fn spec_as_byte(self) -> u8 {
        match self {
            StakeStatus::Active => 0,
            StakeStatus::DeactivatingTransient => 1,
            StakeStatus::ReadyForRemoval => 2,
            StakeStatus::DeactivatingValidator => 3,
            StakeStatus::DeactivatingAll => 4,
        }
    }

    pub open spec fn spec_from_byte(b: u8) -> Option<StakeStatus> {
        if b == 0 {
            Some(StakeStatus::Active)
        } else if b == 1 {
            Some(StakeStatus::DeactivatingTransient)
        } else if b == 2 {
            Some(StakeStatus::ReadyForRemoval)
        } else if b == 3 {
            Some(StakeStatus::DeactivatingValidator)
        } else if b == 4 {
            Some(StakeStatus::DeactivatingAll)
        } else {
            None
        }
    }

    pub fn as_byte(&self) -> (r: u8)
        ensures
            r == self.spec_as_byte(),
            StakeStatus::spec_from_byte(r) == Some(*self),
    {
        match self {
            StakeStatus::Active => 0,
            StakeStatus::DeactivatingTransient => 1,
            StakeStatus::ReadyForRemoval => 2,
            StakeStatus::DeactivatingValidator => 3,
            StakeStatus::DeactivatingAll => 4,
        }
    }

    /// `None` for a byte that names no status.
    pub fn from_byte(b: u8) -> (r: Option<StakeStatus>)
        ensures
            r == StakeStatus::spec_from_byte(b),
            r matches Some(s) ==> s.spec_as_byte() == b,
    {
        if b == 0 {
            Some(StakeStatus::Active)
        } else if b == 1 {
            Some(StakeStatus::DeactivatingTransient)
        } else if b == 2 {
            Some(StakeStatus::ReadyForRemoval)
        } else if b == 3 {
            Some(StakeStatus::DeactivatingValidator)
        } else if b == 4 {
            Some(StakeStatus::DeactivatingAll)
        } else {
            None
        }
    }
}

impl Default for StakeStatus {
    fn default() -> (r: Self)
        ensures
            r == StakeStatus::Active,
    {
        StakeStatus::Active
    }
}

/// A fee as a fraction. A zero denominator means no fee.
#[derive(Debug, Clone, Copy, PartialEq, Eq, Structural)]
pub struct Fee {
    pub denominator: u64,
    pub numerator: u64,
}

impl Fee {
    pub open spec fn spec_zero() -> Fee {
        Fee { denominator: 0, numerator: 0 }
    }

    /// The fee that takes nothing.
    pub fn zero() -> (r: Fee)
        ensures
            r == Fee::spec_zero(),
    {
        Fee { denominator: 0, numerator: 0 }
    }

    /// The ceiling fee operator: zero when the denominator is zero, else
    /// `numerator / denominator` provided it is at most one.
    pub open spec fn spec_to_fee_ceil(self) -> Option<CeilFee> {
        if self.denominator == 0 {
            Some(CeilFee { numerator: 0, denominator: 1 })
        } else if self.numerator <= self.denominator {
            Some(CeilFee { numerator: self.numerator, denominator: self.denominator })
        } else {
            None
        }
    }

    /// `None` when the numerator exceeds a nonzero denominator.
    pub fn to_fee_ceil(&self) -> (r: Option<CeilFee>)
        ensures
            r == self.spec_to_fee_ceil(),
            r matches Some(f) ==> f.wf(),
    {
        if self.denominator == 0 {
            CeilFee::new(0, 1)
        } else {
            CeilFee::new(self.numerator, self.denominator)
        }
    }
}

impl Default for Fee {
    fn default() -> (r: Self)
        ensures
            r == Fee::spec_zero(),
    {
        Fee::zero()
    }
}

/// A value that takes effect in a coming epoch, if any: `Unset` when no
/// change is pending, else the value for the next epoch or the one after.
#[derive(Debug, Clone, Copy, PartialEq, Eq, Hash)]
pub enum FutureEpoch<T> {
    Unset,
    One(T),
    Two(T),
}

/// Lockup that all stakes in the pool must have.
#[derive(Debug, Clone, Copy, PartialEq, Eq, Hash)]
pub struct Lockup {
    pub unix_timestamp: i64,
    pub epoch: u64,
    pub custodian: [u8; 32],
}

/// Header of a validator list account.
#[derive(Debug, Clone, Copy, PartialEq, Eq, Structural)]
pub struct ValidatorListHeader {
    /// Account type, must be `ValidatorList` currently
    pub account_type: AccountType,
    /// Maximum allowable number of validators
    pub max_validators: u32,
}

} // verus!
