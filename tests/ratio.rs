use spl_stake_pool_core::ratio::{CeilFee, FloorRatio, ReferralFee};
use spl_stake_pool_core::typedefs::Fee;

#[test]
fn ceil_fee_partition() {
    let fee = CeilFee::new(3, 7).unwrap();
    let a = fee.apply(100);
    assert_eq!((a.rem, a.fee), (57, 43));
    for amount in [0u64, 1, 2, 99, 1000, u64::MAX] {
        for (n, d) in [(0u64, 1u64), (1, 1), (1, 3), (2, 3), (u64::MAX - 1, u64::MAX)] {
            let a = CeilFee::new(n, d).unwrap().apply(amount);
            assert_eq!(a.rem + a.fee, amount);
        }
    }
    assert_eq!(CeilFee::new(8, 7), None);
    assert_eq!(CeilFee::new(0, 0), None);
}

#[test]
fn fee_zero_denominator_is_no_fee() {
    let f = Fee { denominator: 0, numerator: 5 }.to_fee_ceil().unwrap();
    assert_eq!((f.numerator, f.denominator), (0, 1));
    assert_eq!(f.apply(77).fee, 0);
    assert_eq!(Fee { denominator: 4, numerator: 5 }.to_fee_ceil(), None);
    assert_eq!(Fee::default(), Fee::zero());
}

#[test]
fn referral_fee_partition() {
    let r = ReferralFee::new(50).unwrap().apply(7);
    assert_eq!((r.rem, r.fee), (4, 3));
    let r = ReferralFee::new(100).unwrap().apply(7);
    assert_eq!((r.rem, r.fee), (0, 7));
    let r = ReferralFee::new(0).unwrap().apply(u64::MAX);
    assert_eq!((r.rem, r.fee), (u64::MAX, 0));
    assert_eq!(ReferralFee::new(101), None);
}

#[test]
fn floor_ratio_reverse() {
    let r = FloorRatio { n: 3, d: 2 };
    assert_eq!(r.apply(7), Some(10));
    assert_eq!(r.reverse_est(10), Some((7, 7)));
    assert_eq!(r.reverse_est(11), Some((8, 7)));
    assert_eq!(FloorRatio { n: 0, d: 2 }.reverse_est(0), Some((0, u64::MAX)));
    assert_eq!(FloorRatio { n: 0, d: 2 }.reverse_est(1), None);
    assert!(FloorRatio { n: 5, d: 0 }.is_zero());
    let rev = CeilFee::new(1, 3).unwrap().reverse_from_rem(6);
    assert_eq!(rev, Some((9, 10)));
}
