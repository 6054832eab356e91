use vstd::prelude::*;

use sanctum_u64_ratio::{Ceil, Floor, Ratio};

verus! {

pub const U64_MAX: u64 = 0xffff_ffff_ffff_ffff;

/// `ceil(a / b)` for `a >= 0`, `b > 0`.
pub open spec fn ceil_div(a: int, b: int) -> int {
    (a + b - 1) / b
}

/// What `floor(x * n / d)` gives as a `u64`: zero for a zero ratio,
/// `None` past `u64::MAX`.
pub open spec fn floor_apply_spec(n: int, d: int, x: int) -> Option<u64> {
    if n == 0 || d == 0 {
        Some(0u64)
    } else if x * n / d <= U64_MAX {
        Some((x * n / d) as u64)
    } else {
        None
    }
}

/// The inclusive range of inputs `x` with `floor(x * n / d) == y`, estimated
/// without search: the lower end rounds up, the upper end rounds down and
/// saturates at `u64::MAX`. The range may be empty (`start > end`).
pub open spec fn floor_reverse_est_spec(n: int, d: int, y: int) -> Option<(u64, u64)> {
    if n == 0 || d == 0 {
        if y == 0 {
            Some((0u64, U64_MAX))
        } else {
            None
        }
    } else if ceil_div(d * y, n) > U64_MAX {
        None
    } else {
        let q = (d * y + d) / n;
        let hi = if (d * y + d) % n == 0 {
            q - 1
        } else {
            q
        };
        Some((ceil_div(d * y, n) as u64, if hi > U64_MAX { U64_MAX } else { hi as u64 }))
    }
}

/// [`floor_reverse_est_spec`], with an empty range reported as `None`.
pub open spec fn floor_reverse_spec(n: int, d: int, y: int) -> Option<(u64, u64)> {
    match floor_reverse_est_spec(n, d, y) {
        Some(r) => if r.0 > r.1 {
            None
        } else {
            Some(r)
        },
        None => None,
    }
}

/// The fee that a ceiling fee ratio `n / d` takes from `x`.
pub open spec fn ceil_fee_of(n: int, d: int, x: int) -> int {
    ceil_div(x * n, d)
}

/// An amount split into what is left after a fee and the fee itself.
#[derive(Debug, Clone, Copy, PartialEq, Eq, Structural)]
pub struct AftFee {
    pub rem: u64,
    pub fee: u64,
}

impl AftFee {
    /// The amount before the fee was taken.
    pub open spec fn bef_fee(self) -> int {
        self.rem + self.fee
    }
}

/// Relies on `sanctum_u64_ratio::Floor::<Ratio<u64, u64>>::apply`:
/// `floor(amount * n / d)`, zero for a zero ratio, `None` past `u64::MAX`.
#[verifier::external_body]
fn floor_ratio_apply(n: u64, d: u64, amount: u64) -> (r: Option<u64>)
    ensures
        r == floor_apply_spec(n as int, d as int, amount as int),
{
    Floor(Ratio { n, d }).apply(amount)
}

/// Relies on `sanctum_u64_ratio::Floor::<Ratio<u64, u64>>::reverse_est`: the
/// range of inputs that floor-apply to `amt_after_apply`, as start and end.
#[verifier::external_body]
fn floor_ratio_reverse_est(n: u64, d: u64, amt_after_apply: u64) -> (r: Option<(u64, u64)>)
    ensures
        r == floor_reverse_est_spec(n as int, d as int, amt_after_apply as int),
{
    Floor(Ratio { n, d }).reverse_est(amt_after_apply).map(|r| (*r.start(), *r.end()))
}

/// Relies on `sanctum_fee_ratio::Fee::<Ceil<Ratio<u64, u64>>>::new` and its
/// `apply`: a fee of `ceil(amount * n / d)`, the rest left over.
#[verifier::external_body]
fn ceil_fee_apply(n: u64, d: u64, amount: u64) -> (r: Option<AftFee>)
    requires
        d != 0,
        n <= d,
    ensures
        r == Some(
            AftFee {
                rem: (amount - ceil_fee_of(n as int, d as int, amount as int)) as u64,
                fee: ceil_fee_of(n as int, d as int, amount as int) as u64,
            },
        ),
{
    let fee = sanctum_fee_ratio::Fee::<Ceil<Ratio<u64, u64>>>::new(Ratio { n, d })?;
    let aft = fee.apply(amount)?;
    Some(AftFee { rem: aft.rem(), fee: aft.fee() })
}

/// Relies on `sanctum_fee_ratio::Fee::<Ceil<Ratio<u64, u64>>>::new` and its
/// `reverse_from_rem`: `rem..=rem` for a zero fee, else the floor-reverse of
/// `rem` through `(d - n) / d`.
#[verifier::external_body]
fn ceil_fee_reverse_from_rem(n: u64, d: u64, rem: u64) -> (r: Option<(u64, u64)>)
    requires
        d != 0,
        n <= d,
    ensures
        r == (if n == 0 {
            Some((rem, rem))
        } else {
            floor_reverse_spec(d - n, d as int, rem as int)
        }),
{
    let fee = sanctum_fee_ratio::Fee::<Ceil<Ratio<u64, u64>>>::new(Ratio { n, d })?;
    fee.reverse_from_rem(rem).map(|r| (*r.start(), *r.end()))
}

/// Relies on `sanctum_fee_ratio::Fee::<Floor<Ratio<u8, u8>>>::new` and its
/// `apply`: a fee of `floor(amount * n / d)`, the rest left over.
#[verifier::external_body]
fn floor_fee_apply_u8(n: u8, d: u8, amount: u64) -> (r: Option<AftFee>)
    requires
        d != 0,
        n <= d,
    ensures
        r == Some(
            AftFee {
                rem: (amount - amount as int * n as int / d as int) as u64,
                fee: (amount as int * n as int / d as int) as u64,
            },
        ),
{
    let fee = sanctum_fee_ratio::Fee::<Floor<Ratio<u8, u8>>>::new(Ratio { n, d })?;
    let aft = fee.apply(amount)?;
    Some(AftFee { rem: aft.rem(), fee: aft.fee() })
}

/// A ratio `n / d` applied to `u64` amounts with the result rounded down.
/// A zero numerator or denominator makes it the zero ratio.
#[derive(Debug, Clone, Copy, PartialEq, Eq, Structural)]
pub struct FloorRatio {
    pub n: u64,
    pub d: u64,
}

impl FloorRatio {
    pub open spec fn spec_is_zero(self) -> bool {
        self.n == 0 || self.d == 0
    }

    /// True when applying this ratio gives 0 for every amount.
    pub fn is_zero(&self) -> (r: bool)
        ensures
            r == self.spec_is_zero(),
    {
        self.n == 0 || self.d == 0
    }

    /// `floor(amount * n / d)`; `None` when that exceeds `u64::MAX`.
    pub fn apply(&self, amount: u64) -> (r: Option<u64>)
        ensures
            r == floor_apply_spec(self.n as int, self.d as int, amount as int),
            !self.spec_is_zero() ==> (r is Some <==> amount as int * self.n as int / self.d as int <= U64_MAX),
            r matches Some(v) ==> !self.spec_is_zero() ==> v == amount as int * self.n as int / self.d as int,
    {
        floor_ratio_apply(self.n, self.d, amount)
    }

    /// The inclusive range `(start, end)` of amounts that [`Self::apply`]
    /// maps to `amt_after_apply`, possibly empty.
    pub fn reverse_est(&self, amt_after_apply: u64) -> (r: Option<(u64, u64)>)
        ensures
            r == floor_reverse_est_spec(self.n as int, self.d as int, amt_after_apply as int),
    {
        floor_ratio_reverse_est(self.n, self.d, amt_after_apply)
    }
}

/// A fee ratio `numerator / denominator` of at most one whose fee is rounded
/// up, in favour of the fee collector.
#[derive(Debug, Clone, Copy, PartialEq, Eq, Structural)]
pub struct CeilFee {
    pub numerator: u64,
    pub denominator: u64,
}

impl CeilFee {
    /// A valid fee: nonzero denominator, numerator at most the denominator.
    pub open spec fn wf(self) -> bool {
        self.denominator != 0 && self.numerator <= self.denominator
    }

    /// The fee taken from `amount`.
    pub open spec fn spec_fee(self, amount: int) -> int {
        ceil_fee_of(self.numerator as int, self.denominator as int, amount)
    }

    /// `None` unless `denominator != 0` and `numerator <= denominator`.
    pub fn new(numerator: u64, denominator: u64) -> (r: Option<CeilFee>)
        ensures
            r is Some <==> (denominator != 0 && numerator <= denominator),
            r matches Some(f) ==> f.wf() && f.numerator == numerator && f.denominator
                == denominator,
    {
        if denominator == 0 || numerator > denominator {
            None
        } else {
            Some(CeilFee { numerator, denominator })
        }
    }

    /// Splits `amount` into `ceil(amount * numerator / denominator)` of fee and
    /// the rest, which add up to `amount`.
    pub fn apply(&self, amount: u64) -> (r: AftFee)
        requires
            self.wf(),
        ensures
            r.fee == self.spec_fee(amount as int),
            r.rem == amount - self.spec_fee(amount as int),
            r.rem + r.fee == amount,
    {
        proof {
            lemma_ceil_fee_bounded(self.numerator as int, self.denominator as int, amount as int);
        }
        match ceil_fee_apply(self.numerator, self.denominator, amount) {
            Some(a) => a,
            None => AftFee { rem: amount, fee: 0 },
        }
    }

    /// The inclusive range `(start, end)` of amounts whose remainder after
    /// the fee could be `rem`; `None` when that range is empty or its start
    /// exceeds `u64::MAX`.
    pub fn reverse_from_rem(&self, rem: u64) -> (r: Option<(u64, u64)>)
        requires
            self.wf(),
        ensures
            r == (if self.numerator == 0 {
                Some((rem, rem))
            } else {
                floor_reverse_spec(
                    self.denominator - self.numerator,
                    self.denominator as int,
                    rem as int,
                )
            }),
    {
        ceil_fee_reverse_from_rem(self.numerator, self.denominator, rem)
    }
}

/// The fee never exceeds the amount when the ratio is at most one.
pub proof fn lemma_ceil_fee_bounded(n: int, d: int, x: int)
    requires
        0 < d,
        0 <= n <= d,
        0 <= x,
    ensures
        0 <= ceil_fee_of(n, d, x) <= x,
{
    assert(x * n <= x * d) by (nonlinear_arith)
        requires
            0 <= n <= d,
            0 <= x,
    ;
    assert(0 <= (x * n + d - 1) / d <= x) by (nonlinear_arith)
        requires
            0 < d,
            0 <= x * n <= x * d,
    ;
}

/// A referral fee: a percentage, at most 100, of an already collected fee
/// that goes to the referrer, rounded down.
#[derive(Debug, Clone, Copy, PartialEq, Eq, Structural)]
pub struct ReferralFee {
    pub fee_pct: u8,
}

pub const PERCENT: u8 = 100;

impl ReferralFee {
    pub open spec fn wf(self) -> bool {
        self.fee_pct <= 100
    }

    /// `None` if `fee_pct > 100`.
    pub fn new(fee_pct: u8) -> (r: Option<ReferralFee>)
        ensures
            r is Some <==> fee_pct <= 100,
            r matches Some(f) ==> f.fee_pct == fee_pct,
    {
        if fee_pct > PERCENT {
            None
        } else {
            Some(ReferralFee { fee_pct })
        }
    }

    /// Splits `amount` into the referrer's `floor(amount * fee_pct / 100)`
    /// (`fee`) and the rest (`rem`).
    pub fn apply(&self, amount: u64) -> (r: AftFee)
        requires
            self.wf(),
        ensures
            r.fee == amount as int * self.fee_pct as int / 100,
            r.rem == amount - amount as int * self.fee_pct as int / 100,
            r.rem + r.fee == amount,
    {
        proof {
            let p = self.fee_pct as int;
            let x = amount as int;
            assert(0 <= x * p / 100 <= x) by (nonlinear_arith)
                requires
                    0 <= p <= 100,
                    0 <= x,
            ;
        }
        match floor_fee_apply_u8(self.fee_pct, PERCENT, amount) {
            Some(a) => a,
            None => AftFee { rem: amount, fee: 0 },
        }
    }
}

} // verus!
