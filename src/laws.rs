use vstd::prelude::*;

use vstd::arithmetic::div_mod::{lemma_fundamental_div_mod, lemma_fundamental_div_mod_converse};

use crate::consts::STAKE_ACCOUNT_RENT_EXEMPT_LAMPORTS;
use crate::pool::StakePool;
use crate::quote::{WithdrawSolQuote, WithdrawSolQuoteArgs};
use crate::ratio::{ceil_div, CeilFee};
use crate::error::SplStakePoolError;

verus! {

/// `q = x / d` is the one integer with `d * q <= x < d * q + d`.
proof fn lemma_div_bounds(x: int, d: int)
    requires
        0 < d,
    ensures
        d * (x / d) <= x < d * (x / d) + d,
{
    lemma_fundamental_div_mod(x, d);
}

proof fn lemma_div_from_bounds(x: int, d: int, q: int)
    requires
        0 < d,
        d * q <= x < d * q + d,
    ensures
        x / d == q,
{
    assert(x == q * d + (x - d * q)) by (nonlinear_arith);
    lemma_fundamental_div_mod_converse(x, d, q, x - d * q);
}

/// Inverting a ceiling fee `n / d` with `0 < n < d` from a remainder `a`
/// (taking `ceil(d * a / (d - n))` pool tokens) leaves exactly `a` once the
/// fee is taken again.
proof fn lemma_fee_inverse_exact(n: int, d: int, a: int)
    requires
        0 < n < d,
        0 <= a,
    ensures
        ({
            let t = ceil_div(d * a, d - n);
            t - ceil_div(t * n, d) == a
        }),
{
    let m = d - n;
    let t = ceil_div(d * a, m);
    lemma_div_bounds(d * a + m - 1, m);
    assert(m * t <= d * a + m - 1 && d * a <= m * t);
    assert(d * (t - a) <= t * n + d - 1 < d * (t - a) + d) by (nonlinear_arith)
        requires
            m == d - n,
            m * t <= d * a + m - 1,
            d * a <= m * t,
            0 < n < d,
    ;
    lemma_div_from_bounds(t * n + d - 1, d, t - a);
}

/// At a rate of at least one lamport per pool token (`0 < s <= t`), the pool
/// tokens `a = ceil(s * l / t)` convert back to some `l2 >= l` lamports, and
/// `l2` inverts to the same `a`.
proof fn lemma_rate_round_trip(s: int, t: int, l: int)
    requires
        0 < s <= t,
        0 <= l,
    ensures
        ({
            let a = ceil_div(s * l, t);
            let l2 = a * t / s;
            l2 >= l && ceil_div(s * l2, t) == a
        }),
{
    let a = ceil_div(s * l, t);
    let l2 = a * t / s;
    lemma_div_bounds(s * l + t - 1, t);
    lemma_div_bounds(a * t, s);
    assert(t * a <= s * l + t - 1 && s * l <= t * a);
    assert(s * l2 <= a * t < s * l2 + s);
    assert(l2 >= l) by (nonlinear_arith)
        requires
            0 < s,
            s * l <= t * a,
            a * t < s * l2 + s,
    ;
    assert(t * a <= s * l2 + t - 1 < t * a + t) by (nonlinear_arith)
        requires
            s <= t,
            s * l2 <= a * t,
            a * t < s * l2 + s,
    ;
    lemma_div_from_bounds(s * l2 + t - 1, t, a);
}

/// The fee taken from a remainder's reverse estimate leaves that remainder.
proof fn lemma_fee_reverse_then_apply(fee: CeilFee, a: int)
    requires
        fee.wf(),
        0 <= a <= u64::MAX,
    ensures
        (if fee.numerator == 0 {
            Some((a as u64, a as u64))
        } else {
            crate::ratio::floor_reverse_spec(
                fee.denominator - fee.numerator,
                fee.denominator as int,
                a,
            )
        }) matches Some(range) ==> range.0 - fee.spec_fee(range.0 as int) == a,
{
    let n = fee.numerator as int;
    let d = fee.denominator as int;
    if n == 0 {
        assert(fee.spec_fee(a) == 0) by {
            assert((a * 0 + d - 1) / d == 0) by (nonlinear_arith)
                requires
                    0 < d,
            ;
        }
    } else if n < d {
        lemma_fee_inverse_exact(n, d, a);
    } else {
        assert(fee.spec_fee(0) == 0) by {
            assert((0 * n + d - 1) / d == 0) by (nonlinear_arith)
                requires
                    0 < d,
            ;
        }
    }
}

/// Reverse SOL withdrawal round trip at a rate of at least one lamport per
/// pool token: when the reverse quote for `lamports` asks for `tokens` and
/// the forward quote for `tokens` succeeds, it pays out at least `lamports`,
/// and the reverse quote for that payout asks for exactly `tokens` again.
pub proof fn lemma_rev_withdraw_sol_round_trip(pool: StakePool, lamports: u64)
    requires
        pool.pool_token_supply <= pool.total_lamports,
        pool.spec_quote_rev_withdraw_sol_unchecked(lamports) is Some,
        pool.spec_quote_withdraw_sol_unchecked(
            pool.spec_quote_rev_withdraw_sol_unchecked(lamports).unwrap().in_amount,
        ) is Some,
    ensures
        ({
            let tokens = pool.spec_quote_rev_withdraw_sol_unchecked(lamports).unwrap().in_amount;
            let paid = pool.spec_quote_withdraw_sol_unchecked(tokens).unwrap().out_amount;
            &&& paid >= lamports
            &&& pool.spec_quote_rev_withdraw_sol_unchecked(paid) is Some
            &&& pool.spec_quote_rev_withdraw_sol_unchecked(paid).unwrap().in_amount == tokens
        }),
{
    let fee = pool.sol_withdrawal_fee.spec_to_fee_ceil().unwrap();
    let range = pool.spec_rev_pool_tokens_to_lamports(lamports).unwrap();
    let a = range.0;
    let tokens = pool.spec_quote_rev_withdraw_sol_unchecked(lamports).unwrap().in_amount;
    lemma_fee_reverse_then_apply(fee, a as int);
    assert(tokens - fee.spec_fee(tokens as int) == a);
    let paid = pool.spec_quote_withdraw_sol_unchecked(tokens).unwrap().out_amount;
    if pool.spec_rate_degenerate() {
        assert(paid == a);
    } else {
        let s = pool.pool_token_supply as int;
        let t = pool.total_lamports as int;
        lemma_rate_round_trip(s, t, lamports as int);
        assert(a == ceil_div(s * lamports, t));
        assert(paid == a * t / s);
        assert(pool.spec_rev_pool_tokens_to_lamports(paid).unwrap().0 == a);
    }
}

/// With either side of the exchange rate at zero, both conversions hand
/// back their input.
pub proof fn lemma_degenerate_rate_identity(pool: StakePool, x: u64)
    requires
        pool.pool_token_supply == 0 || pool.total_lamports == 0,
    ensures
        pool.spec_lamports_to_pool_tokens(x) == Some(x),
        pool.spec_pool_tokens_to_lamports(x) == Some(x),
{
}

/// A SOL withdrawal that would leave the reserve with exactly the rent-exempt
/// minimum fails with `SolWithdrawalTooLarge`; one lamport more in the
/// reserve and the same quote is served.
pub proof fn lemma_reserve_sufficiency_boundary(
    pool: StakePool,
    pool_tokens: u64,
    args: WithdrawSolQuoteArgs,
)
    requires
        pool.spec_is_updated_for_epoch(args.current_epoch),
        pool.spec_quote_withdraw_sol_unchecked(pool_tokens) is Some,
        args.reserve_stake_lamports >= pool.spec_quote_withdraw_sol_unchecked(
            pool_tokens,
        ).unwrap().out_amount,
    ensures
        ({
            let q = pool.spec_quote_withdraw_sol_unchecked(pool_tokens).unwrap();
            let left = args.reserve_stake_lamports - q.out_amount;
            &&& left == STAKE_ACCOUNT_RENT_EXEMPT_LAMPORTS ==> pool.spec_quote_withdraw_sol(
                pool_tokens,
                args,
            ) == Err::<WithdrawSolQuote, SplStakePoolError>(
                SplStakePoolError::SolWithdrawalTooLarge,
            )
            &&& left == STAKE_ACCOUNT_RENT_EXEMPT_LAMPORTS + 1 ==> pool.spec_quote_withdraw_sol(
                pool_tokens,
                args,
            ) == Ok::<WithdrawSolQuote, SplStakePoolError>(q)
        }),
{
}

} // verus!
