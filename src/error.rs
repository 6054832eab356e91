use vstd::prelude::*;

verus! {

/// Failures reported by the quoting engine and its collaborators.
#[derive(Debug, Clone, Copy, PartialEq, Eq, Hash, Structural)]
pub enum SplStakePoolError {
    CalculationFailure,
    IncorrectDepositVoteAddress,
    IncorrectWithdrawVoteAddress,
    InvalidSolDepositAuthority,
    InvalidStakeDepositAuthority,
    InvalidState,
    SolWithdrawalTooLarge,
    StakeLamportsNotEqualToMinimum,
    StakeListAndPoolOutOfDate,
    ValidatorNotFound,
}

impl SplStakePoolError {
    /// The variant's name, as it would be printed.
    pub fn name(&self) -> (r: &'static str)
        ensures
            *self == SplStakePoolError::CalculationFailure ==> r@ == "CalculationFailure"@,
            *self == SplStakePoolError::IncorrectDepositVoteAddress ==> r@
                == "IncorrectDepositVoteAddress"@,
            *self == SplStakePoolError::IncorrectWithdrawVoteAddress ==> r@
                == "IncorrectWithdrawVoteAddress"@,
            *self == SplStakePoolError::InvalidSolDepositAuthority ==> r@
                == "InvalidSolDepositAuthority"@,
            *self == SplStakePoolError::InvalidStakeDepositAuthority ==> r@
                == "InvalidStakeDepositAuthority"@,
            *self == SplStakePoolError::InvalidState ==> r@ == "InvalidState"@,
            *self == SplStakePoolError::SolWithdrawalTooLarge ==> r@ == "SolWithdrawalTooLarge"@,
            *self == SplStakePoolError::StakeLamportsNotEqualToMinimum ==> r@
                == "StakeLamportsNotEqualToMinimum"@,
            *self == SplStakePoolError::StakeListAndPoolOutOfDate ==> r@
                == "StakeListAndPoolOutOfDate"@,
            *self == SplStakePoolError::ValidatorNotFound ==> r@ == "ValidatorNotFound"@,
    {
        match self {
            SplStakePoolError::CalculationFailure => "CalculationFailure",
            SplStakePoolError::IncorrectDepositVoteAddress => "IncorrectDepositVoteAddress",
            SplStakePoolError::IncorrectWithdrawVoteAddress => "IncorrectWithdrawVoteAddress",
            SplStakePoolError::InvalidSolDepositAuthority => "InvalidSolDepositAuthority",
            SplStakePoolError::InvalidStakeDepositAuthority => "InvalidStakeDepositAuthority",
            SplStakePoolError::InvalidState => "InvalidState",
            SplStakePoolError::SolWithdrawalTooLarge => "SolWithdrawalTooLarge",
            SplStakePoolError::StakeLamportsNotEqualToMinimum => "StakeLamportsNotEqualToMinimum",
            SplStakePoolError::StakeListAndPoolOutOfDate => "StakeListAndPoolOutOfDate",
            SplStakePoolError::ValidatorNotFound => "ValidatorNotFound",
        }
    }
}

} // verus!
