use vstd::prelude::*;

use crate::consts::STAKE_ACCOUNT_RENT_EXEMPT_LAMPORTS;
use crate::typedefs::StakeStatus;

verus! {

/// Caller-side inputs of a SOL deposit quote.
#[derive(Debug, Clone, Copy)]
pub struct DepositSolQuoteArgs {
    pub depositor: [u8; 32],
    pub current_epoch: u64,
}

#[derive(Debug, Clone, Copy, PartialEq, Eq, Structural)]
pub struct DepositSolQuote {
    pub in_amount: u64,
    pub out_amount: u64,
    /// In terms of newly minted pool tokens
    pub referral_fee: u64,
    /// In terms of newly minted pool tokens
    pub manager_fee: u64,
}

impl DepositSolQuote {
    pub fn total_fees(&self) -> (r: u64)
        requires
            self.referral_fee + self.manager_fee <= u64::MAX,
        ensures
            r == self.referral_fee + self.manager_fee,
    {
        self.referral_fee + self.manager_fee
    }
}

/// Caller-side inputs of a stake deposit quote: the validator's status and
/// vote account, and the current epoch.
#[derive(Debug, Clone, Copy)]
pub struct DepositStakeQuoteArgs {
    pub validator_status: StakeStatus,
    pub validator_vote: [u8; 32],
    pub current_epoch: u64,
}

#[derive(Debug, Clone, Copy, PartialEq, Eq, Structural)]
pub struct DepositStakeQuote {
    /// Staked and unstaked lamports, before subtracting fees
    pub stake_account_lamports_in: StakeAccountLamports,
    /// Output tokens, after subtracting fees
    pub tokens_out: u64,
    /// In terms of output tokens
    pub manager_fee: u64,
    /// In terms of output tokens
    pub referral_fee: u64,
}

impl DepositStakeQuote {
    pub fn total_fees(&self) -> (r: u64)
        requires
            self.referral_fee + self.manager_fee <= u64::MAX,
        ensures
            r == self.referral_fee + self.manager_fee,
    {
        self.referral_fee + self.manager_fee
    }
}

/// Caller-side inputs of a SOL withdrawal quote.
#[derive(Debug, Clone, Copy)]
pub struct WithdrawSolQuoteArgs {
    pub reserve_stake_lamports: u64,
    pub current_epoch: u64,
}

#[derive(Debug, Clone, Copy, PartialEq, Eq, Structural)]
pub struct WithdrawSolQuote {
    /// Input tokens, before subtracting fees
    pub in_amount: u64,
    /// Output lamports, after subtracting fees
    pub out_amount: u64,
    /// In terms of pool tokens
    pub manager_fee: u64,
}

#[derive(Debug, Clone, Copy)]
pub struct WithdrawStakeQuoteArgs {
    pub current_epoch: u64,
}

#[derive(Debug, Clone, Copy, PartialEq, Eq, Structural)]
pub struct WithdrawStakeQuote {
    pub tokens_in: u64,
    pub lamports_staked: u64,
    /// fee is levied in pool tokens and transferred to the
    /// pool's manager fee destination
    pub fee_amount: u64,
}

/// The lamports of a stake account, split into staked and unstaked.
#[derive(Debug, Clone, Copy, PartialEq, Eq, Structural)]
pub struct StakeAccountLamports {
    pub staked: u64,
    pub unstaked: u64,
}

impl StakeAccountLamports {
    pub fn total(&self) -> (r: u64)
        requires
            self.staked + self.unstaked <= u64::MAX,
        ensures
            r == self.staked + self.unstaked,
    {
        self.staked + self.unstaked
    }
}

/// The reserve can pay out `lamports_out` only if strictly more than the
/// rent-exempt minimum stays behind.
pub open spec fn spec_reserve_has_sufficient_lamports(reserve: u64, lamports_out: u64) -> bool {
    reserve >= lamports_out && reserve - lamports_out > STAKE_ACCOUNT_RENT_EXEMPT_LAMPORTS
}

pub fn reserve_has_sufficient_lamports(reserve_stake_lamports: u64, lamports_out: u64) -> (r: bool)
    ensures
        r == spec_reserve_has_sufficient_lamports(reserve_stake_lamports, lamports_out),
{
    match reserve_stake_lamports.checked_sub(lamports_out) {
        Some(remaining) => remaining > STAKE_ACCOUNT_RENT_EXEMPT_LAMPORTS,
        None => false,
    }
}

} // verus!
