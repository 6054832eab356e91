use spl_stake_pool_core::consts::STAKE_ACCOUNT_RENT_EXEMPT_LAMPORTS;
use spl_stake_pool_core::error::SplStakePoolError;
use spl_stake_pool_core::pool::StakePool;
use spl_stake_pool_core::quote::{
    reserve_has_sufficient_lamports, DepositSolQuote, DepositSolQuoteArgs, DepositStakeQuote,
    DepositStakeQuoteArgs, StakeAccountLamports, WithdrawSolQuote, WithdrawSolQuoteArgs,
    WithdrawStakeQuote, WithdrawStakeQuoteArgs,
};
use spl_stake_pool_core::typedefs::{Fee, StakeStatus};

fn pool(total_lamports: u64, pool_token_supply: u64) -> StakePool {
    StakePool {
        total_lamports,
        pool_token_supply,
        ..Default::default()
    }
}

#[test]
fn quoting_with_zero_fee_should_not_error() {
    let tokens = 126455611948;
    let sp = StakePool {
        total_lamports: 4072725611527686,
        pool_token_supply: 3727925207812268,
        stake_withdrawal_fee: Fee::zero(),
        ..Default::default()
    };
    assert_eq!(
        sp.quote_withdraw_stake_unchecked(tokens).unwrap(),
        WithdrawStakeQuote {
            tokens_in: 126455611948,
            lamports_staked: 138151647576,
            fee_amount: 0,
        }
    );
}

#[test]
fn degenerate_rate_is_identity() {
    for sp in [pool(0, 5), pool(5, 0), pool(0, 0)] {
        for x in [0u64, 1, 12345, u64::MAX] {
            assert_eq!(sp.lamports_to_pool_tokens(x), Some(x));
            assert_eq!(sp.pool_tokens_to_lamports(x), Some(x));
            let r = sp.rev_pool_tokens_to_lamports(x).unwrap();
            assert_eq!((*r.start(), *r.end()), (x, x));
        }
    }
}

#[test]
fn conversions_round_down() {
    let sp = pool(3, 2);
    assert_eq!(sp.lamports_to_pool_tokens(10), Some(6));
    assert_eq!(sp.pool_tokens_to_lamports(10), Some(15));
    assert_eq!(sp.pool_tokens_to_lamports(7), Some(10));
    let r = sp.rev_pool_tokens_to_lamports(10).unwrap();
    assert_eq!((*r.start(), *r.end()), (7, 7));
    // 2 lamports per token overflows past u64::MAX
    assert_eq!(pool(2, 1).pool_tokens_to_lamports(u64::MAX), None);
}

#[test]
fn deposit_sol_fee_and_referral_split() {
    let sp = StakePool {
        sol_deposit_fee: Fee { denominator: 10, numerator: 1 },
        sol_referral_fee: 50,
        ..pool(1, 2)
    };
    let q = sp.quote_deposit_sol_unchecked(1000).unwrap();
    assert_eq!(
        q,
        DepositSolQuote { in_amount: 1000, out_amount: 1800, referral_fee: 100, manager_fee: 100 }
    );
    assert_eq!(q.total_fees(), 200);
    let odd = StakePool { sol_referral_fee: 33, ..sp.clone() };
    let q = odd.quote_deposit_sol_unchecked(1001).unwrap();
    // 2002 tokens, fee ceil(200.2) = 201, referrer floor(201 * 33 / 100) = 66
    assert_eq!(
        q,
        DepositSolQuote { in_amount: 1001, out_amount: 1801, referral_fee: 66, manager_fee: 135 }
    );
}

#[test]
fn deposit_stake_splits_fees_by_source() {
    let sp = StakePool {
        stake_deposit_fee: Fee { denominator: 100, numerator: 1 },
        sol_deposit_fee: Fee { denominator: 10, numerator: 1 },
        stake_referral_fee: 10,
        ..pool(1, 1)
    };
    let stake = StakeAccountLamports { staked: 1000, unstaked: 500 };
    assert_eq!(stake.total(), 1500);
    let q = sp.quote_deposit_stake_unchecked(stake).unwrap();
    assert_eq!(
        q,
        DepositStakeQuote {
            stake_account_lamports_in: stake,
            tokens_out: 1440,
            manager_fee: 54,
            referral_fee: 6,
        }
    );
    assert_eq!(q.total_fees(), 60);
    let overflowing = StakeAccountLamports { staked: u64::MAX, unstaked: 1 };
    assert_eq!(sp.quote_deposit_stake_unchecked(overflowing), None);
}

#[test]
fn withdraw_sol_and_reverse() {
    let sp = StakePool {
        sol_withdrawal_fee: Fee { denominator: 3, numerator: 1 },
        ..pool(1, 1)
    };
    assert_eq!(
        sp.quote_withdraw_sol_unchecked(10),
        Some(WithdrawSolQuote { in_amount: 10, out_amount: 6, manager_fee: 4 })
    );
    assert_eq!(
        sp.quote_rev_withdraw_sol_unchecked(6),
        Some(WithdrawSolQuote { in_amount: 9, out_amount: 6, manager_fee: 3 })
    );
    assert_eq!(
        sp.quote_withdraw_sol_unchecked(9),
        Some(WithdrawSolQuote { in_amount: 9, out_amount: 6, manager_fee: 3 })
    );
}

#[test]
fn withdraw_stake_with_fee() {
    let sp = StakePool {
        stake_withdrawal_fee: Fee { denominator: 1000, numerator: 3 },
        ..pool(5, 4)
    };
    // fee ceil(1000 * 3 / 1000) = 3, 997 tokens left, floor(997 * 5 / 4) = 1246
    assert_eq!(
        sp.quote_withdraw_stake_unchecked(1000),
        Some(WithdrawStakeQuote { tokens_in: 1000, lamports_staked: 1246, fee_amount: 3 })
    );
}

#[test]
fn invalid_fees_fail_the_quote() {
    let sp = StakePool {
        sol_withdrawal_fee: Fee { denominator: 3, numerator: 4 },
        ..pool(1, 1)
    };
    assert_eq!(sp.quote_withdraw_sol_unchecked(10), None);
    let sp = StakePool { sol_referral_fee: 101, ..pool(1, 1) };
    assert_eq!(sp.quote_deposit_sol_unchecked(10), None);
    assert!(sp.sol_referral_fee().is_none());
    assert_eq!(sp.stake_referral_fee().map(|f| f.fee_pct), Some(0));
}

fn key(b: u8) -> [u8; 32] {
    [b; 32]
}

#[test]
fn quote_errors_in_check_order() {
    let sp = StakePool {
        last_update_epoch: 10,
        sol_deposit_authority: Some(key(1)),
        preferred_deposit_validator_vote_address: Some(key(2)),
        ..pool(1, 1)
    };
    let args = DepositSolQuoteArgs { depositor: key(9), current_epoch: 11 };
    assert_eq!(
        sp.quote_deposit_sol(5, args),
        Err(SplStakePoolError::StakeListAndPoolOutOfDate)
    );
    let args = DepositSolQuoteArgs { depositor: key(9), current_epoch: 10 };
    assert_eq!(
        sp.quote_deposit_sol(5, args),
        Err(SplStakePoolError::InvalidSolDepositAuthority)
    );
    let args = DepositSolQuoteArgs { depositor: key(1), current_epoch: 10 };
    assert!(sp.quote_deposit_sol(5, args).is_ok());

    let stake = StakeAccountLamports { staked: 10, unstaked: 0 };
    let mut args = DepositStakeQuoteArgs {
        validator_status: StakeStatus::Active,
        validator_vote: key(3),
        current_epoch: 11,
    };
    assert_eq!(
        sp.quote_deposit_stake(stake, &args),
        Err(SplStakePoolError::StakeListAndPoolOutOfDate)
    );
    args.current_epoch = 10;
    assert_eq!(
        sp.quote_deposit_stake(stake, &args),
        Err(SplStakePoolError::IncorrectDepositVoteAddress)
    );
    args.validator_vote = key(2);
    args.validator_status = StakeStatus::DeactivatingTransient;
    assert_eq!(sp.quote_deposit_stake(stake, &args), Err(SplStakePoolError::InvalidState));
    args.validator_status = StakeStatus::Active;
    assert!(sp.quote_deposit_stake(stake, &args).is_ok());

    assert_eq!(
        sp.quote_withdraw_stake(5, WithdrawStakeQuoteArgs { current_epoch: 11 }),
        Err(SplStakePoolError::StakeListAndPoolOutOfDate)
    );
    let overflow = StakePool { last_update_epoch: 10, ..pool(u64::MAX, 1) };
    assert_eq!(
        overflow.quote_withdraw_stake(5, WithdrawStakeQuoteArgs { current_epoch: 10 }),
        Err(SplStakePoolError::CalculationFailure)
    );
    let args = WithdrawSolQuoteArgs { reserve_stake_lamports: u64::MAX, current_epoch: 10 };
    assert_eq!(overflow.quote_withdraw_sol(5, args), Err(SplStakePoolError::CalculationFailure));
    let args = WithdrawSolQuoteArgs { reserve_stake_lamports: u64::MAX, current_epoch: 11 };
    assert_eq!(
        overflow.quote_rev_withdraw_sol(5, args),
        Err(SplStakePoolError::StakeListAndPoolOutOfDate)
    );
}

#[test]
fn reserve_sufficiency_boundary() {
    let rent = STAKE_ACCOUNT_RENT_EXEMPT_LAMPORTS;
    assert!(!reserve_has_sufficient_lamports(1000 + rent, 1000));
    assert!(reserve_has_sufficient_lamports(1000 + rent + 1, 1000));
    assert!(!reserve_has_sufficient_lamports(5, 6));

    let sp = pool(1, 1);
    let out = sp.quote_withdraw_sol_unchecked(1000).unwrap().out_amount;
    assert_eq!(out, 1000);
    let at = WithdrawSolQuoteArgs { reserve_stake_lamports: out + rent, current_epoch: 0 };
    assert_eq!(sp.quote_withdraw_sol(1000, at), Err(SplStakePoolError::SolWithdrawalTooLarge));
    assert_eq!(
        sp.quote_rev_withdraw_sol(1000, at),
        Err(SplStakePoolError::SolWithdrawalTooLarge)
    );
    let above = WithdrawSolQuoteArgs { reserve_stake_lamports: out + rent + 1, current_epoch: 0 };
    assert_eq!(
        sp.quote_withdraw_sol(1000, above),
        Ok(WithdrawSolQuote { in_amount: 1000, out_amount: 1000, manager_fee: 0 })
    );
    assert_eq!(
        sp.quote_rev_withdraw_sol(1000, above),
        Ok(WithdrawSolQuote { in_amount: 1000, out_amount: 1000, manager_fee: 0 })
    );
}

struct Rng(u64);

impl Rng {
    fn next(&mut self) -> u64 {
        self.0 ^= self.0 << 13;
        self.0 ^= self.0 >> 7;
        self.0 ^= self.0 << 17;
        self.0
    }
}

fn check_rev_round_trip(sp: &StakePool, lamports: u64) -> bool {
    let Some(q) = sp.quote_rev_withdraw_sol_unchecked(lamports) else {
        return false;
    };
    assert_eq!(q.out_amount, lamports);
    let Some(fwd) = sp.quote_withdraw_sol_unchecked(q.in_amount) else {
        return false;
    };
    assert!(fwd.out_amount >= lamports, "{} < {}", fwd.out_amount, lamports);
    let again = sp.quote_rev_withdraw_sol_unchecked(fwd.out_amount).unwrap();
    assert_eq!(again.in_amount, q.in_amount);
    true
}

#[test]
fn quote_rev_withdraw_sol_round_trip_x_gte_1() {
    let mut rng = Rng(0x9e3779b97f4a7c15);
    let mut checked = 0;
    for i in 0..20000u64 {
        let total_lamports = rng.next() >> (rng.next() % 64);
        let pool_token_supply = match i % 3 {
            0 => total_lamports,
            _ if total_lamports == 0 => 0,
            _ => rng.next() % total_lamports,
        };
        let denominator = rng.next() >> (rng.next() % 64);
        let numerator = match i % 4 {
            0 => 0,
            1 => denominator,
            _ => rng.next() >> (rng.next() % 64),
        };
        let sp = StakePool {
            sol_withdrawal_fee: Fee { denominator, numerator },
            ..pool(total_lamports, pool_token_supply)
        };
        let lamports = rng.next() >> (rng.next() % 64);
        if check_rev_round_trip(&sp, lamports) {
            checked += 1;
        }
    }
    assert!(checked > 1000);
}

#[test]
fn rev_withdraw_forward_quote_may_overflow() {
    // 10 lamports for 3 tokens: the reverse quote for u64::MAX lamports asks
    // for ceil(3 * MAX / 10) tokens, which are worth MAX + 1 lamports.
    let sp = pool(10, 3);
    let q = sp.quote_rev_withdraw_sol_unchecked(u64::MAX).unwrap();
    assert_eq!(sp.quote_withdraw_sol_unchecked(q.in_amount), None);
}

#[test]
fn quote_rev_withdraw_sol_round_trip_x_lte_1() {
    let mut rng = Rng(0xd1b54a32d192ed03);
    let mut checked = 0;
    for i in 0..20000u64 {
        let pool_token_supply = rng.next() >> (rng.next() % 64);
        let total_lamports = match i % 3 {
            0 => pool_token_supply,
            _ if pool_token_supply == 0 => 0,
            _ => rng.next() % pool_token_supply,
        };
        let denominator = rng.next() >> (rng.next() % 64);
        let numerator = match i % 4 {
            0 => 0,
            1 => denominator,
            _ => rng.next() >> (rng.next() % 64),
        };
        let sp = StakePool {
            sol_withdrawal_fee: Fee { denominator, numerator },
            ..pool(total_lamports, pool_token_supply)
        };
        let tokens = rng.next() >> (rng.next() % 64);
        match sp.quote_withdraw_sol_unchecked(tokens) {
            Some(q) => {
                assert_eq!(q.in_amount, tokens);
                let quoted_tokens = sp.quote_rev_withdraw_sol_unchecked(q.out_amount).unwrap().in_amount;
                assert!(quoted_tokens <= tokens, "{quoted_tokens}, {tokens}");
                let rt_out = sp.quote_withdraw_sol_unchecked(quoted_tokens).unwrap().out_amount;
                assert_eq!(rt_out, q.out_amount);
                checked += 1;
            }
            None => assert_eq!(sp.quote_rev_withdraw_sol_unchecked(tokens), None),
        }
    }
    assert!(checked > 1000);
}

#[test]
fn deposit_stake_converts_parts_separately() {
    // 2 lamports per token: 3 staked lamports give 1 token, 1 unstaked gives 0
    let sp = pool(2, 1);
    let stake = StakeAccountLamports { staked: 3, unstaked: 1 };
    assert_eq!(
        sp.quote_deposit_stake_unchecked(stake),
        Some(DepositStakeQuote {
            stake_account_lamports_in: stake,
            tokens_out: 1,
            manager_fee: 0,
            referral_fee: 0,
        })
    );
    let sp = StakePool {
        stake_deposit_fee: Fee { denominator: 10, numerator: 1 },
        sol_deposit_fee: Fee { denominator: 2, numerator: 1 },
        stake_referral_fee: 50,
        ..pool(2, 1)
    };
    // staked 21 -> 10 tokens, fee ceil(1.0) = 1; unstaked 7 -> 3 tokens, fee ceil(1.5) = 2
    let stake = StakeAccountLamports { staked: 21, unstaked: 7 };
    assert_eq!(
        sp.quote_deposit_stake_unchecked(stake),
        Some(DepositStakeQuote {
            stake_account_lamports_in: stake,
            tokens_out: 10,
            manager_fee: 2,
            referral_fee: 1,
        })
    );
}
