use vstd::prelude::*;

use core::ops::RangeInclusive;

use crate::error::SplStakePoolError;
use crate::quote::{
    reserve_has_sufficient_lamports, spec_reserve_has_sufficient_lamports, DepositSolQuote,
    DepositSolQuoteArgs, DepositStakeQuote, DepositStakeQuoteArgs, StakeAccountLamports,
    WithdrawSolQuote, WithdrawSolQuoteArgs, WithdrawStakeQuote, WithdrawStakeQuoteArgs,
};
use crate::ratio::{
    floor_apply_spec, floor_reverse_est_spec, floor_reverse_spec, CeilFee, FloorRatio,
    ReferralFee,
};
use crate::typedefs::{AccountType, Fee, FutureEpoch, Lockup, StakeStatus};

verus! {

/// Whether two public keys are the same 32 bytes.
pub fn pubkey_eq(a: &[u8; 32], b: &[u8; 32]) -> (r: bool)
    ensures
        r == (a@ == b@),
{
    let mut i: usize = 0;
    while i < 32
        invariant
            0 <= i <= 32,
            a@.len() == 32,
            b@.len() == 32,
            forall|j: int| 0 <= j < i ==> a@[j] == b@[j],
        decreases 32 - i,
    {
        if a[i] != b[i] {
            return false;
        }
        i += 1;
    }
    proof {
        assert(a@ =~= b@);
    }
    true
}

/// The exchange-rate and policy snapshot of a stake pool.
#[derive(Clone, Debug, PartialEq)]
pub struct StakePool {
    /// Account type, must be StakePool currently
    pub account_type: AccountType,
    /// Manager authority, allows for updating the staker, manager, and fee
    /// account
    pub manager: [u8; 32],
    /// Staker authority, allows for adding and removing validators, and
    /// managing stake distribution
    pub staker: [u8; 32],
    /// Stake deposit authority
    pub stake_deposit_authority: [u8; 32],
    /// Stake withdrawal authority bump seed
    pub stake_withdraw_bump_seed: u8,
    /// Validator stake list storage account
    pub validator_list: [u8; 32],
    /// Reserve stake account, holds deactivated stake
    pub reserve_stake: [u8; 32],
    /// Pool Mint
    pub pool_mint: [u8; 32],
    /// Manager fee account
    pub manager_fee_account: [u8; 32],
    /// Pool token program id
    pub token_program_id: [u8; 32],
    /// Total stake under management. Only accurate when `last_update_epoch`
    /// is the current epoch.
    pub total_lamports: u64,
    /// Total supply of pool tokens
    pub pool_token_supply: u64,
    /// Last epoch the `total_lamports` field was updated
    pub last_update_epoch: u64,
    /// Lockup that all stakes in the pool must have
    pub lockup: Lockup,
    /// Fee taken as a proportion of rewards each epoch
    pub epoch_fee: Fee,
    /// Fee for next epoch
    pub next_epoch_fee: FutureEpoch<Fee>,
    /// Preferred deposit validator vote account pubkey
    pub preferred_deposit_validator_vote_address: Option<[u8; 32]>,
    /// Preferred withdraw validator vote account pubkey
    pub preferred_withdraw_validator_vote_address: Option<[u8; 32]>,
    /// Fee assessed on stake deposits
    pub stake_deposit_fee: Fee,
    /// Fee assessed on withdrawals
    pub stake_withdrawal_fee: Fee,
    /// Future stake withdrawal fee, to be set for the following epoch
    pub next_stake_withdrawal_fee: FutureEpoch<Fee>,
    /// Percentage (0 - 100) of stake deposit fees paid out to referrers
    pub stake_referral_fee: u8,
    /// If set, SOL deposits must be signed by this authority
    pub sol_deposit_authority: Option<[u8; 32]>,
    /// Fee assessed on SOL deposits
    pub sol_deposit_fee: Fee,
    /// Percentage (0 - 100) of SOL deposit fees paid out to referrers
    pub sol_referral_fee: u8,
    /// If set, SOL withdrawals must be signed by this authority
    pub sol_withdraw_authority: Option<[u8; 32]>,
    /// Fee assessed on SOL withdrawals
    pub sol_withdrawal_fee: Fee,
    /// Future SOL withdrawal fee, to be set for the following epoch
    pub next_sol_withdrawal_fee: FutureEpoch<Fee>,
    /// Last epoch's total pool tokens, used only for APR estimation
    pub last_epoch_pool_token_supply: u64,
    /// Last epoch's total lamports, used only for APR estimation
    pub last_epoch_total_lamports: u64,
}

impl Default for StakePool {
    /// A `StakePool` account with every key, amount and fee zero and no
    /// pending changes, options or authorities.
    fn default() -> (r: Self)
        ensures
            r.account_type == AccountType::StakePool,
            r.total_lamports == 0,
            r.pool_token_supply == 0,
            r.last_update_epoch == 0,
            r.stake_referral_fee == 0,
            r.sol_referral_fee == 0,
            r.epoch_fee == Fee::spec_zero(),
            r.stake_deposit_fee == Fee::spec_zero(),
            r.stake_withdrawal_fee == Fee::spec_zero(),
            r.sol_deposit_fee == Fee::spec_zero(),
            r.sol_withdrawal_fee == Fee::spec_zero(),
            r.next_epoch_fee == FutureEpoch::<Fee>::Unset,
            r.next_stake_withdrawal_fee == FutureEpoch::<Fee>::Unset,
            r.next_sol_withdrawal_fee == FutureEpoch::<Fee>::Unset,
            r.preferred_deposit_validator_vote_address is None,
            r.preferred_withdraw_validator_vote_address is None,
            r.sol_deposit_authority is None,
            r.sol_withdraw_authority is None,
    {
        StakePool {
            account_type: AccountType::StakePool,
            manager: [0u8; 32],
            staker: [0u8; 32],
            stake_deposit_authority: [0u8; 32],
            stake_withdraw_bump_seed: 0,
            validator_list: [0u8; 32],
            reserve_stake: [0u8; 32],
            pool_mint: [0u8; 32],
            manager_fee_account: [0u8; 32],
            token_program_id: [0u8; 32],
            total_lamports: 0,
            pool_token_supply: 0,
            last_update_epoch: 0,
            lockup: Lockup { unix_timestamp: 0, epoch: 0, custodian: [0u8; 32] },
            epoch_fee: Fee::zero(),
            next_epoch_fee: FutureEpoch::Unset,
            preferred_deposit_validator_vote_address: None,
            preferred_withdraw_validator_vote_address: None,
            stake_deposit_fee: Fee::zero(),
            stake_withdrawal_fee: Fee::zero(),
            next_stake_withdrawal_fee: FutureEpoch::Unset,
            stake_referral_fee: 0,
            sol_deposit_authority: None,
            sol_deposit_fee: Fee::zero(),
            sol_referral_fee: 0,
            sol_withdraw_authority: None,
            sol_withdrawal_fee: Fee::zero(),
            next_sol_withdrawal_fee: FutureEpoch::Unset,
            last_epoch_pool_token_supply: 0,
            last_epoch_total_lamports: 0,
        }
    }
}

impl StakePool {
    /// Either side of the exchange rate is zero: the rate is taken as 1:1.
    pub open spec fn spec_rate_degenerate(self) -> bool {
        self.pool_token_supply == 0 || self.total_lamports == 0
    }

    pub open spec fn spec_lamports_to_pool_tokens(self, lamports: u64) -> Option<u64> {
        if self.spec_rate_degenerate() {
            Some(lamports)
        } else {
            floor_apply_spec(
                self.pool_token_supply as int,
                self.total_lamports as int,
                lamports as int,
            )
        }
    }

    pub open spec fn spec_pool_tokens_to_lamports(self, pool_tokens: u64) -> Option<u64> {
        if self.spec_rate_degenerate() {
            Some(pool_tokens)
        } else {
            floor_apply_spec(
                self.total_lamports as int,
                self.pool_token_supply as int,
                pool_tokens as int,
            )
        }
    }

    pub open spec fn spec_rev_pool_tokens_to_lamports(self, lamports: u64) -> Option<(u64, u64)> {
        if self.spec_rate_degenerate() {
            Some((lamports, lamports))
        } else {
            floor_reverse_est_spec(
                self.total_lamports as int,
                self.pool_token_supply as int,
                lamports as int,
            )
        }
    }

    pub open spec fn spec_is_updated_for_epoch(self, current_epoch: u64) -> bool {
        self.last_update_epoch >= current_epoch
    }

    pub open spec fn spec_can_pk_deposit(self, pubkey: [u8; 32]) -> bool {
        match self.sol_deposit_authority {
            None => true,
            Some(authority) => authority@ == pubkey@,
        }
    }

    pub open spec fn spec_can_deposit_stake_of(self, vote: [u8; 32]) -> bool {
        match self.preferred_deposit_validator_vote_address {
            None => true,
            Some(preferred) => preferred@ == vote@,
        }
    }

    pub open spec fn spec_quote_deposit_sol_unchecked(self, lamports: u64) -> Option<
        DepositSolQuote,
    > {
        match self.spec_lamports_to_pool_tokens(lamports) {
            None => None,
            Some(new_pool_tokens) => match self.sol_deposit_fee.spec_to_fee_ceil() {
                None => None,
                Some(fee) => {
                    let fee_amt = fee.spec_fee(new_pool_tokens as int);
                    if self.sol_referral_fee > 100 {
                        None
                    } else {
                        let referral = fee_amt * self.sol_referral_fee / 100;
                        Some(
                            DepositSolQuote {
                                in_amount: lamports,
                                out_amount: (new_pool_tokens - fee_amt) as u64,
                                referral_fee: referral as u64,
                                manager_fee: (fee_amt - referral) as u64,
                            },
                        )
                    }
                },
            },
        }
    }

    pub open spec fn spec_quote_deposit_stake_unchecked(
        self,
        stake: StakeAccountLamports,
    ) -> Option<DepositStakeQuote> {
        match (
            self.spec_lamports_to_pool_tokens(stake.staked),
            self.spec_lamports_to_pool_tokens(stake.unstaked),
            self.stake_deposit_fee.spec_to_fee_ceil(),
            self.sol_deposit_fee.spec_to_fee_ceil(),
        ) {
            (Some(from_stake), Some(from_sol), Some(stake_fee), Some(sol_fee)) => {
                let new_tokens = from_stake + from_sol;
                let total_fee = stake_fee.spec_fee(from_stake as int) + sol_fee.spec_fee(
                    from_sol as int,
                );
                if new_tokens > u64::MAX || self.stake_referral_fee > 100 {
                    None
                } else {
                    let referral = total_fee * self.stake_referral_fee / 100;
                    Some(
                        DepositStakeQuote {
                            stake_account_lamports_in: stake,
                            tokens_out: (new_tokens - total_fee) as u64,
                            manager_fee: (total_fee - referral) as u64,
                            referral_fee: referral as u64,
                        },
                    )
                }
            },
            _ => None,
        }
    }

    pub open spec fn spec_quote_withdraw_sol_unchecked(self, pool_tokens: u64) -> Option<
        WithdrawSolQuote,
    > {
        match self.sol_withdrawal_fee.spec_to_fee_ceil() {
            None => None,
            Some(fee) => {
                let fee_amt = fee.spec_fee(pool_tokens as int);
                match self.spec_pool_tokens_to_lamports((pool_tokens - fee_amt) as u64) {
                    None => None,
                    Some(out) => Some(
                        WithdrawSolQuote {
                            in_amount: pool_tokens,
                            out_amount: out,
                            manager_fee: fee_amt as u64,
                        },
                    ),
                }
            },
        }
    }

    pub open spec fn spec_quote_rev_withdraw_sol_unchecked(self, lamports: u64) -> Option<
        WithdrawSolQuote,
    > {
        match self.sol_withdrawal_fee.spec_to_fee_ceil() {
            None => None,
            Some(fee) => match self.spec_rev_pool_tokens_to_lamports(lamports) {
                None => None,
                Some(after_fee_range) => {
                    let after_fee = after_fee_range.0;
                    match (if fee.numerator == 0 {
                        Some((after_fee, after_fee))
                    } else {
                        floor_reverse_spec(
                            fee.denominator - fee.numerator,
                            fee.denominator as int,
                            after_fee as int,
                        )
                    }) {
                        None => None,
                        Some(tokens_range) => Some(
                            WithdrawSolQuote {
                                in_amount: tokens_range.0,
                                out_amount: lamports,
                                manager_fee: (tokens_range.0 - after_fee) as u64,
                            },
                        ),
                    }
                },
            },
        }
    }

    pub open spec fn spec_quote_withdraw_stake_unchecked(self, pool_tokens: u64) -> Option<
        WithdrawStakeQuote,
    > {
        match self.stake_withdrawal_fee.spec_to_fee_ceil() {
            None => None,
            Some(fee) => {
                let fee_amt = fee.spec_fee(pool_tokens as int);
                match self.spec_pool_tokens_to_lamports((pool_tokens - fee_amt) as u64) {
                    None => None,
                    Some(out) => Some(
                        WithdrawStakeQuote {
                            tokens_in: pool_tokens,
                            lamports_staked: out,
                            fee_amount: fee_amt as u64,
                        },
                    ),
                }
            },
        }
    }

    pub open spec fn spec_quote_deposit_sol(self, lamports: u64, args: DepositSolQuoteArgs) -> Result<
        DepositSolQuote,
        SplStakePoolError,
    > {
        if !self.spec_is_updated_for_epoch(args.current_epoch) {
            Err(SplStakePoolError::StakeListAndPoolOutOfDate)
        } else if !self.spec_can_pk_deposit(args.depositor) {
            Err(SplStakePoolError::InvalidSolDepositAuthority)
        } else {
            match self.spec_quote_deposit_sol_unchecked(lamports) {
                None => Err(SplStakePoolError::CalculationFailure),
                Some(q) => Ok(q),
            }
        }
    }

    pub open spec fn spec_quote_deposit_stake(
        self,
        stake: StakeAccountLamports,
        args: DepositStakeQuoteArgs,
    ) -> Result<DepositStakeQuote, SplStakePoolError> {
        if !self.spec_is_updated_for_epoch(args.current_epoch) {
            Err(SplStakePoolError::StakeListAndPoolOutOfDate)
        } else if !self.spec_can_deposit_stake_of(args.validator_vote) {
            Err(SplStakePoolError::IncorrectDepositVoteAddress)
        } else if args.validator_status != StakeStatus::Active {
            Err(SplStakePoolError::InvalidState)
        } else {
            match self.spec_quote_deposit_stake_unchecked(stake) {
                None => Err(SplStakePoolError::CalculationFailure),
                Some(q) => Ok(q),
            }
        }
    }

    pub open spec fn spec_quote_withdraw_sol(
        self,
        pool_tokens: u64,
        args: WithdrawSolQuoteArgs,
    ) -> Result<WithdrawSolQuote, SplStakePoolError> {
        if !self.spec_is_updated_for_epoch(args.current_epoch) {
            Err(SplStakePoolError::StakeListAndPoolOutOfDate)
        } else {
            match self.spec_quote_withdraw_sol_unchecked(pool_tokens) {
                None => Err(SplStakePoolError::CalculationFailure),
                Some(q) => if !spec_reserve_has_sufficient_lamports(
                    args.reserve_stake_lamports,
                    q.out_amount,
                ) {
                    Err(SplStakePoolError::SolWithdrawalTooLarge)
                } else {
                    Ok(q)
                },
            }
        }
    }

    pub open spec fn spec_quote_rev_withdraw_sol(
        self,
        lamports: u64,
        args: WithdrawSolQuoteArgs,
    ) -> Result<WithdrawSolQuote, SplStakePoolError> {
        if !self.spec_is_updated_for_epoch(args.current_epoch) {
            Err(SplStakePoolError::StakeListAndPoolOutOfDate)
        } else if !spec_reserve_has_sufficient_lamports(args.reserve_stake_lamports, lamports) {
            Err(SplStakePoolError::SolWithdrawalTooLarge)
        } else {
            match self.spec_quote_rev_withdraw_sol_unchecked(lamports) {
                None => Err(SplStakePoolError::CalculationFailure),
                Some(q) => Ok(q),
            }
        }
    }

    pub open spec fn spec_quote_withdraw_stake(
        self,
        pool_tokens: u64,
        args: WithdrawStakeQuoteArgs,
    ) -> Result<WithdrawStakeQuote, SplStakePoolError> {
        if !self.spec_is_updated_for_epoch(args.current_epoch) {
            Err(SplStakePoolError::StakeListAndPoolOutOfDate)
        } else {
            match self.spec_quote_withdraw_stake_unchecked(pool_tokens) {
                None => Err(SplStakePoolError::CalculationFailure),
                Some(q) => Ok(q),
            }
        }
    }
}

impl StakePool {
    /// Must return `true` for the quote to be applicable.
    pub fn is_updated_for_epoch(&self, current_epoch: u64) -> (r: bool)
        ensures
            r == self.spec_is_updated_for_epoch(current_epoch),
    {
        self.last_update_epoch >= current_epoch
    }

    /// Must return `true` for the quote to be applicable.
    pub fn can_pk_deposit(&self, pubkey: &[u8; 32]) -> (r: bool)
        ensures
            r == self.spec_can_pk_deposit(*pubkey),
    {
        match &self.sol_deposit_authority {
            None => true,
            Some(authority) => pubkey_eq(authority, pubkey),
        }
    }

    /// Must return `true` for the quote to be applicable.
    pub fn can_deposit_stake_of(&self, vote: &[u8; 32]) -> (r: bool)
        ensures
            r == self.spec_can_deposit_stake_of(*vote),
    {
        match &self.preferred_deposit_validator_vote_address {
            None => true,
            Some(preferred) => pubkey_eq(preferred, vote),
        }
    }

    /// Pool tokens per lamport, applied with the result rounded down.
    pub fn supply_over_lamports(&self) -> (r: FloorRatio)
        ensures
            r.n == self.pool_token_supply,
            r.d == self.total_lamports,
    {
        FloorRatio { n: self.pool_token_supply, d: self.total_lamports }
    }

    /// Lamports per pool token, applied with the result rounded down.
    pub fn lamports_over_supply(&self) -> (r: FloorRatio)
        ensures
            r.n == self.total_lamports,
            r.d == self.pool_token_supply,
    {
        FloorRatio { n: self.total_lamports, d: self.pool_token_supply }
    }

    /// `floor(lamports * pool_token_supply / total_lamports)`, or `lamports`
    /// itself when either side of the rate is zero. `None` on overflow.
    pub fn lamports_to_pool_tokens(&self, lamports: u64) -> (r: Option<u64>)
        ensures
            r == self.spec_lamports_to_pool_tokens(lamports),
            self.spec_rate_degenerate() ==> r == Some(lamports),
    {
        let ratio = self.supply_over_lamports();
        if ratio.is_zero() {
            return Some(lamports);
        }
        ratio.apply(lamports)
    }

    /// `floor(pool_tokens * total_lamports / pool_token_supply)`, or
    /// `pool_tokens` itself when either side of the rate is zero. `None` on
    /// overflow.
    pub fn pool_tokens_to_lamports(&self, pool_tokens: u64) -> (r: Option<u64>)
        ensures
            r == self.spec_pool_tokens_to_lamports(pool_tokens),
            self.spec_rate_degenerate() ==> r == Some(pool_tokens),
    {
        let ratio = self.lamports_over_supply();
        if ratio.is_zero() {
            return Some(pool_tokens);
        }
        ratio.apply(pool_tokens)
    }

    fn rev_pool_tokens_to_lamports_bounds(&self, lamports: u64) -> (r: Option<(u64, u64)>)
        ensures
            r == self.spec_rev_pool_tokens_to_lamports(lamports),
    {
        let ratio = self.lamports_over_supply();
        if ratio.is_zero() {
            return Some((lamports, lamports));
        }
        ratio.reverse_est(lamports)
    }

    /// The inclusive range of pool token amounts that
    /// [`Self::pool_tokens_to_lamports`] may have turned into `lamports`;
    /// `lamports..=lamports` when either side of the rate is zero.
    pub fn rev_pool_tokens_to_lamports(&self, lamports: u64) -> (r: Option<RangeInclusive<u64>>)
        ensures
            r is Some <==> self.spec_rev_pool_tokens_to_lamports(lamports) is Some,
            r matches Some(range) ==> range@.start == self.spec_rev_pool_tokens_to_lamports(
                lamports,
            ).unwrap().0 && range@.end == self.spec_rev_pool_tokens_to_lamports(
                lamports,
            ).unwrap().1 && !range@.exhausted,
    {
        match self.rev_pool_tokens_to_lamports_bounds(lamports) {
            None => None,
            Some((start, end)) => Some(RangeInclusive::new(start, end)),
        }
    }

    /// `None` if `sol_referral_fee > 100`.
    pub fn sol_referral_fee(&self) -> (r: Option<ReferralFee>)
        ensures
            r is Some <==> self.sol_referral_fee <= 100,
            r matches Some(f) ==> f.fee_pct == self.sol_referral_fee,
    {
        ReferralFee::new(self.sol_referral_fee)
    }

    /// `None` if `stake_referral_fee > 100`.
    pub fn stake_referral_fee(&self) -> (r: Option<ReferralFee>)
        ensures
            r is Some <==> self.stake_referral_fee <= 100,
            r matches Some(f) ==> f.fee_pct == self.stake_referral_fee,
    {
        ReferralFee::new(self.stake_referral_fee)
    }

    /// Pool tokens minted for a deposit of `lamports`: the SOL deposit fee
    /// (rounded up) comes out of the converted amount and is split between
    /// the referrer (rounded down) and the manager. `None` on overflow or an
    /// invalid fee.
    pub fn quote_deposit_sol_unchecked(&self, lamports: u64) -> (r: Option<DepositSolQuote>)
        ensures
            r == self.spec_quote_deposit_sol_unchecked(lamports),
            r matches Some(q) ==> q.out_amount + q.referral_fee + q.manager_fee
                == self.spec_lamports_to_pool_tokens(lamports).unwrap(),
    {
        let new_pool_tokens = self.lamports_to_pool_tokens(lamports)?;
        let after_sol_deposit_fee = self.sol_deposit_fee.to_fee_ceil()?.apply(new_pool_tokens);
        let out_amount = after_sol_deposit_fee.rem;
        let referral_fee_split = self.sol_referral_fee()?.apply(after_sol_deposit_fee.fee);
        Some(
            DepositSolQuote {
                in_amount: lamports,
                out_amount,
                referral_fee: referral_fee_split.fee,
                manager_fee: referral_fee_split.rem,
            },
        )
    }

    /// Checks, in order, the pool's freshness and the depositor authority,
    /// then quotes; an overflow becomes `CalculationFailure`.
    pub fn quote_deposit_sol(&self, lamports: u64, args: DepositSolQuoteArgs) -> (r: Result<
        DepositSolQuote,
        SplStakePoolError,
    >)
        ensures
            r == self.spec_quote_deposit_sol(lamports, args),
    {
        if !self.is_updated_for_epoch(args.current_epoch) {
            return Err(SplStakePoolError::StakeListAndPoolOutOfDate);
        }
        if !self.can_pk_deposit(&args.depositor) {
            return Err(SplStakePoolError::InvalidSolDepositAuthority);
        }
        match self.quote_deposit_sol_unchecked(lamports) {
            None => Err(SplStakePoolError::CalculationFailure),
            Some(q) => Ok(q),
        }
    }

    /// Pool tokens minted for a stake account: staked and unstaked lamports
    /// are converted separately, the stake deposit fee applies to the staked
    /// part's tokens and the SOL deposit fee to the unstaked part's (both
    /// rounded up), the output is the sum of both parts less the fees, and the
    /// total fee is split with the referrer (rounded down). `None` on overflow
    /// or an invalid fee.
    pub fn quote_deposit_stake_unchecked(&self, stake_account_lamports: StakeAccountLamports) -> (r:
        Option<DepositStakeQuote>)
        ensures
            r == self.spec_quote_deposit_stake_unchecked(stake_account_lamports),
            r matches Some(q) ==> q.tokens_out + q.manager_fee + q.referral_fee
                == self.spec_lamports_to_pool_tokens(stake_account_lamports.staked).unwrap()
                + self.spec_lamports_to_pool_tokens(stake_account_lamports.unstaked).unwrap(),
    {
        let new_pool_tokens_from_stake = self.lamports_to_pool_tokens(
            stake_account_lamports.staked,
        )?;
        let new_pool_tokens_from_sol = self.lamports_to_pool_tokens(
            stake_account_lamports.unstaked,
        )?;
        let stake_fee = self.stake_deposit_fee.to_fee_ceil()?;
        let sol_fee = self.sol_deposit_fee.to_fee_ceil()?;
        let new_pool_tokens = new_pool_tokens_from_stake.checked_add(new_pool_tokens_from_sol)?;
        let stake_deposit_fee = stake_fee.apply(new_pool_tokens_from_stake).fee;
        let sol_deposit_fee = sol_fee.apply(new_pool_tokens_from_sol).fee;
        let total_fee = stake_deposit_fee + sol_deposit_fee;
        let tokens_out = new_pool_tokens - total_fee;
        let after_referral_fee = self.stake_referral_fee()?.apply(total_fee);
        Some(
            DepositStakeQuote {
                stake_account_lamports_in: stake_account_lamports,
                tokens_out,
                manager_fee: after_referral_fee.rem,
                referral_fee: after_referral_fee.fee,
            },
        )
    }

    /// Checks, in order, the pool's freshness, the preferred deposit
    /// validator and that the validator is active, then quotes; an overflow
    /// becomes `CalculationFailure`.
    pub fn quote_deposit_stake(
        &self,
        stake_account_lamports: StakeAccountLamports,
        args: &DepositStakeQuoteArgs,
    ) -> (r: Result<DepositStakeQuote, SplStakePoolError>)
        ensures
            r == self.spec_quote_deposit_stake(stake_account_lamports, *args),
    {
        if !self.is_updated_for_epoch(args.current_epoch) {
            return Err(SplStakePoolError::StakeListAndPoolOutOfDate);
        }
        if !self.can_deposit_stake_of(&args.validator_vote) {
            return Err(SplStakePoolError::IncorrectDepositVoteAddress);
        }
        match args.validator_status {
            StakeStatus::Active => {},
            _ => {
                return Err(SplStakePoolError::InvalidState);
            },
        }
        match self.quote_deposit_stake_unchecked(stake_account_lamports) {
            None => Err(SplStakePoolError::CalculationFailure),
            Some(q) => Ok(q),
        }
    }

    /// Lamports paid out for `pool_tokens`: the SOL withdrawal fee (rounded
    /// up, in pool tokens) comes off first and the rest is converted. `None`
    /// on overflow or an invalid fee.
    pub fn quote_withdraw_sol_unchecked(&self, pool_tokens: u64) -> (r: Option<WithdrawSolQuote>)
        ensures
            r == self.spec_quote_withdraw_sol_unchecked(pool_tokens),
    {
        let fee = self.sol_withdrawal_fee.to_fee_ceil()?;
        let after_sol_withdrawal_fee = fee.apply(pool_tokens);
        let out_lamports = self.pool_tokens_to_lamports(after_sol_withdrawal_fee.rem)?;
        Some(
            WithdrawSolQuote {
                in_amount: pool_tokens,
                out_amount: out_lamports,
                manager_fee: after_sol_withdrawal_fee.fee,
            },
        )
    }

    /// Checks the pool's freshness, quotes (an overflow becomes
    /// `CalculationFailure`), then checks that the reserve keeps more than
    /// the rent-exempt minimum after paying the quoted lamports.
    pub fn quote_withdraw_sol(&self, pool_tokens: u64, args: WithdrawSolQuoteArgs) -> (r: Result<
        WithdrawSolQuote,
        SplStakePoolError,
    >)
        ensures
            r == self.spec_quote_withdraw_sol(pool_tokens, args),
    {
        if !self.is_updated_for_epoch(args.current_epoch) {
            return Err(SplStakePoolError::StakeListAndPoolOutOfDate);
        }
        let quote = match self.quote_withdraw_sol_unchecked(pool_tokens) {
            None => {
                return Err(SplStakePoolError::CalculationFailure);
            },
            Some(x) => x,
        };
        if !reserve_has_sufficient_lamports(args.reserve_stake_lamports, quote.out_amount) {
            return Err(SplStakePoolError::SolWithdrawalTooLarge);
        }
        Ok(quote)
    }

    /// The smallest estimate of pool tokens to hand in for `lamports`: the
    /// conversion is inverted and the start of its range taken, then the
    /// fee is inverted from that remainder and the start of its range taken.
    /// `None` on overflow or an invalid fee.
    pub fn quote_rev_withdraw_sol_unchecked(&self, lamports: u64) -> (r: Option<WithdrawSolQuote>)
        ensures
            r == self.spec_quote_rev_withdraw_sol_unchecked(lamports),
            r matches Some(q) ==> q.out_amount == lamports,
    {
        let fee = self.sol_withdrawal_fee.to_fee_ceil()?;
        let (after_sol_withdrawal_fee, _) = self.rev_pool_tokens_to_lamports_bounds(lamports)?;
        let (pool_tokens, _) = fee.reverse_from_rem(after_sol_withdrawal_fee)?;
        proof {
            lemma_fee_reverse_start_ge(fee, after_sol_withdrawal_fee as int);
        }
        let manager_fee = pool_tokens - after_sol_withdrawal_fee;
        Some(WithdrawSolQuote { in_amount: pool_tokens, out_amount: lamports, manager_fee })
    }

    /// Checks the pool's freshness and that the reserve keeps more than the
    /// rent-exempt minimum after paying `lamports`, then quotes; an overflow
    /// becomes `CalculationFailure`.
    pub fn quote_rev_withdraw_sol(&self, lamports: u64, args: WithdrawSolQuoteArgs) -> (r: Result<
        WithdrawSolQuote,
        SplStakePoolError,
    >)
        ensures
            r == self.spec_quote_rev_withdraw_sol(lamports, args),
    {
        if !self.is_updated_for_epoch(args.current_epoch) {
            return Err(SplStakePoolError::StakeListAndPoolOutOfDate);
        }
        if !reserve_has_sufficient_lamports(args.reserve_stake_lamports, lamports) {
            return Err(SplStakePoolError::SolWithdrawalTooLarge);
        }
        match self.quote_rev_withdraw_sol_unchecked(lamports) {
            None => Err(SplStakePoolError::CalculationFailure),
            Some(x) => Ok(x),
        }
    }

    /// Lamports of stake paid out for `pool_tokens`: the stake withdrawal fee
    /// (rounded up, in pool tokens) comes off first and the rest is
    /// converted. `None` on overflow or an invalid fee.
    pub fn quote_withdraw_stake_unchecked(&self, pool_tokens: u64) -> (r: Option<
        WithdrawStakeQuote,
    >)
        ensures
            r == self.spec_quote_withdraw_stake_unchecked(pool_tokens),
    {
        let after_stake_withdrawal_fee = self.stake_withdrawal_fee.to_fee_ceil()?.apply(
            pool_tokens,
        );
        let lamports_staked = self.pool_tokens_to_lamports(after_stake_withdrawal_fee.rem)?;
        Some(
            WithdrawStakeQuote {
                tokens_in: pool_tokens,
                lamports_staked,
                fee_amount: after_stake_withdrawal_fee.fee,
            },
        )
    }

    /// Checks the pool's freshness, then quotes; an overflow becomes
    /// `CalculationFailure`.
    pub fn quote_withdraw_stake(&self, pool_tokens: u64, args: WithdrawStakeQuoteArgs) -> (r:
        Result<WithdrawStakeQuote, SplStakePoolError>)
        ensures
            r == self.spec_quote_withdraw_stake(pool_tokens, args),
    {
        if !self.is_updated_for_epoch(args.current_epoch) {
            return Err(SplStakePoolError::StakeListAndPoolOutOfDate);
        }
        match self.quote_withdraw_stake_unchecked(pool_tokens) {
            None => Err(SplStakePoolError::CalculationFailure),
            Some(q) => Ok(q),
        }
    }
}

/// The start of a fee's reverse range is at least the remainder it came from.
pub proof fn lemma_fee_reverse_start_ge(fee: CeilFee, rem: int)
    requires
        fee.wf(),
        0 <= rem <= u64::MAX,
    ensures
        (if fee.numerator == 0 {
            Some((rem as u64, rem as u64))
        } else {
            floor_reverse_spec(fee.denominator - fee.numerator, fee.denominator as int, rem)
        }) matches Some(range) ==> range.0 >= rem,
{
    let n = fee.numerator as int;
    let d = fee.denominator as int;
    if n != 0 && d - n != 0 {
        let m = d - n;
        assert((d * rem + m - 1) / m >= rem) by (nonlinear_arith)
            requires
                0 < m <= d,
                0 <= rem,
        {
            assert(d * rem + m - 1 >= m * rem);
            assert(m * ((d * rem + m - 1) / m) + m > d * rem + m - 1 - m + m);
        }
    }
}

} // verus!
