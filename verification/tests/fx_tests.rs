use state_space::Fx;
use state_space::FX_SCALE;

#[test]
fn constants_have_expected_raws() {
    assert_eq!(Fx::zero().raw(), 0);
    assert_eq!(Fx::one().raw(), FX_SCALE);
    assert_eq!(Fx::min_value().raw(), i64::MIN);
    assert_eq!(Fx::max_value().raw(), i64::MAX);
}

#[test]
fn from_int_scales_whole_units() {
    assert_eq!(Fx::from_int(3).raw(), 3 * FX_SCALE);
    assert_eq!(Fx::from_int(-7).raw(), -7 * FX_SCALE);
    assert_eq!(Fx::from_int(0).raw(), 0);
}

#[test]
fn from_int_saturates_when_out_of_range() {
    assert_eq!(Fx::from_int(i64::MAX), Fx::max_value());
    assert_eq!(Fx::from_int(i64::MIN), Fx::min_value());
}

#[test]
fn add_is_exact_in_range() {
    let a = Fx::from_raw(2_500_000);
    let b = Fx::from_raw(-1_200_000);
    assert_eq!(a.add(b).raw(), 1_300_000);
}

#[test]
fn add_saturates_at_extremes() {
    assert_eq!(Fx::max_value().add(Fx::from_raw(1)), Fx::max_value());
    assert_eq!(Fx::min_value().add(Fx::from_raw(-1)), Fx::min_value());
}

#[test]
fn mul_is_exact_on_representable_products() {
    // 2.5 * 4 = 10
    let a = Fx::from_raw(2_500_000);
    let b = Fx::from_int(4);
    assert_eq!(a.mul(b).raw(), 10 * FX_SCALE);
    // -2.5 * 4 = -10
    let c = Fx::from_raw(-2_500_000);
    assert_eq!(c.mul(b).raw(), -10 * FX_SCALE);
    // 0.9 * 0.1 = 0.09
    let d = Fx::from_raw(900_000);
    let e = Fx::from_raw(100_000);
    assert_eq!(d.mul(e).raw(), 90_000);
}

#[test]
fn mul_truncates_toward_zero() {
    // One quantum times one quantum underflows to zero from either sign.
    assert_eq!(Fx::from_raw(1).mul(Fx::from_raw(1)).raw(), 0);
    assert_eq!(Fx::from_raw(-1).mul(Fx::from_raw(1)).raw(), 0);
    // 0.000003 * 0.5 = 0.0000015, truncated to 0.000001 toward zero.
    assert_eq!(Fx::from_raw(3).mul(Fx::from_raw(500_000)).raw(), 1);
    assert_eq!(Fx::from_raw(-3).mul(Fx::from_raw(500_000)).raw(), -1);
}

#[test]
fn mul_saturates_at_extremes() {
    assert_eq!(Fx::max_value().mul(Fx::from_int(2)), Fx::max_value());
    assert_eq!(Fx::max_value().mul(Fx::from_int(-2)), Fx::min_value());
    assert_eq!(Fx::min_value().mul(Fx::from_int(2)), Fx::min_value());
}

#[test]
fn mul_by_zero_and_one() {
    let a = Fx::from_raw(123_456_789);
    assert_eq!(a.mul(Fx::zero()).raw(), 0);
    assert_eq!(a.mul(Fx::one()), a);
}

#[test]
fn le_follows_raw_order() {
    assert!(Fx::from_raw(-1).le(Fx::zero()));
    assert!(Fx::zero().le(Fx::zero()));
    assert!(!Fx::one().le(Fx::zero()));
}

#[test]
fn clamped_respects_ordered_bounds() {
    let lo = Fx::from_int(-5);
    let hi = Fx::from_int(9);
    assert_eq!(Fx::from_int(1).clamped(lo, hi), Fx::from_int(1));
    assert_eq!(Fx::from_int(-314).clamped(lo, hi), lo);
    assert_eq!(Fx::from_int(628).clamped(lo, hi), hi);
}

#[test]
fn clamped_with_inverted_bounds_is_the_upper_bound() {
    // lo > hi is a misconfiguration; the documented deterministic outcome
    // is the upper bound, because the cap is applied last.
    let lo = Fx::from_int(5);
    let hi = Fx::from_int(2);
    assert_eq!(Fx::zero().clamped(lo, hi), hi);
    assert_eq!(Fx::from_int(10).clamped(lo, hi), hi);
}
