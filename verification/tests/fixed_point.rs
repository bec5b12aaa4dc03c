use motorsim::fixed::{Fixed, SCALE};

#[test]
fn one_is_a_billion_raw_units() {
    assert_eq!(SCALE, 1_000_000_000);
    assert_eq!(Fixed::one().raw(), 1_000_000_000);
    assert_eq!(Fixed::zero().raw(), 0);
    assert_eq!(Fixed::from_int(-7).raw(), -7_000_000_000);
    assert_eq!(Fixed::from_int(i32::MAX).raw(), 2_147_483_647_000_000_000);
    assert_eq!(Fixed::from_int(i32::MIN).raw(), -2_147_483_648_000_000_000);
}

#[test]
fn add_and_sub_are_exact_within_range() {
    let a = Fixed::from_raw(1_500_000_000);
    let b = Fixed::from_raw(-2_250_000_000);
    assert_eq!(a.add(b).raw(), -750_000_000);
    assert_eq!(a.sub(b).raw(), 3_750_000_000);
    assert_eq!(b.sub(b), Fixed::zero());
}

#[test]
fn add_and_sub_saturate() {
    let top = Fixed::from_raw(i64::MAX);
    let bottom = Fixed::from_raw(i64::MIN);
    assert_eq!(top.add(Fixed::from_raw(1)), top);
    assert_eq!(bottom.add(Fixed::from_raw(-1)), bottom);
    assert_eq!(bottom.sub(Fixed::from_raw(1)), bottom);
    assert_eq!(top.sub(Fixed::from_raw(-1)), top);
    assert_eq!(top.add(bottom).raw(), -1);
}

#[test]
fn neg_saturates_only_at_the_least_number() {
    assert_eq!(Fixed::from_raw(5).neg().raw(), -5);
    assert_eq!(Fixed::from_raw(-5).neg().raw(), 5);
    assert_eq!(Fixed::from_raw(i64::MAX).neg().raw(), -i64::MAX);
    assert_eq!(Fixed::from_raw(i64::MIN).neg().raw(), i64::MAX);
}

#[test]
fn mul_rounds_toward_zero() {
    let half = Fixed::from_raw(500_000_000);
    assert_eq!(Fixed::from_int(3).mul(half).raw(), 1_500_000_000);
    assert_eq!(Fixed::from_raw(3).mul(half).raw(), 1);
    assert_eq!(Fixed::from_raw(-3).mul(half).raw(), -1);
    assert_eq!(Fixed::from_raw(3).mul(half.neg()).raw(), -1);
    assert_eq!(Fixed::from_raw(-3).mul(half.neg()).raw(), 1);
    assert_eq!(Fixed::from_raw(1).mul(half).raw(), 0);
    assert_eq!(Fixed::from_raw(-1).mul(half).raw(), 0);
}

#[test]
fn mul_saturates() {
    let top = Fixed::from_raw(i64::MAX);
    let bottom = Fixed::from_raw(i64::MIN);
    assert_eq!(top.mul(top), top);
    assert_eq!(top.mul(bottom), bottom);
    assert_eq!(bottom.mul(bottom), top);
    assert_eq!(top.mul(Fixed::one()), top);
    assert_eq!(bottom.mul(Fixed::one()), bottom);
    assert_eq!(bottom.mul(Fixed::one().neg()), top);
}

#[test]
fn mul_by_zero_is_zero() {
    for raw in [i64::MIN, -1, 0, 1, 123_456_789, i64::MAX] {
        assert_eq!(Fixed::from_raw(raw).mul(Fixed::zero()), Fixed::zero());
        assert_eq!(Fixed::zero().mul(Fixed::from_raw(raw)), Fixed::zero());
    }
}

#[test]
fn div_rounds_toward_zero() {
    assert_eq!(Fixed::one().div(Fixed::from_int(3)).raw(), 333_333_333);
    assert_eq!(Fixed::one().neg().div(Fixed::from_int(3)).raw(), -333_333_333);
    assert_eq!(Fixed::one().div(Fixed::from_int(-3)).raw(), -333_333_333);
    assert_eq!(Fixed::from_int(2).div(Fixed::from_int(3)).raw(), 666_666_666);
    assert_eq!(Fixed::one().div(Fixed::from_int(1000)).raw(), 1_000_000);
    assert_eq!(Fixed::from_raw(7).div(Fixed::from_int(2)).raw(), 3);
    assert_eq!(Fixed::from_raw(-7).div(Fixed::from_int(2)).raw(), -3);
}

#[test]
fn div_saturates() {
    let tiny = Fixed::from_raw(1);
    assert_eq!(Fixed::from_int(10).div(tiny).raw(), i64::MAX);
    assert_eq!(Fixed::from_int(-10).div(tiny).raw(), i64::MIN);
    assert_eq!(Fixed::from_raw(i64::MIN).div(Fixed::one().neg()).raw(), i64::MAX);
    assert_eq!(Fixed::zero().div(tiny), Fixed::zero());
}

#[test]
fn comparisons_go_by_value() {
    let a = Fixed::from_raw(-1);
    let b = Fixed::from_raw(1);
    assert!(a.lt(b) && a.le(b) && b.gt(a));
    assert!(!b.lt(a) && !b.le(a) && !a.gt(b));
    assert!(a.le(a) && !a.lt(a) && !a.gt(a));
}

#[test]
fn clamp_symmetric_holds_the_size_within_the_bound() {
    let bound = Fixed::from_int(24);
    assert_eq!(Fixed::from_int(30).clamp_symmetric(bound), bound);
    assert_eq!(Fixed::from_int(-30).clamp_symmetric(bound), Fixed::from_int(-24));
    assert_eq!(Fixed::from_int(7).clamp_symmetric(bound), Fixed::from_int(7));
    assert_eq!(Fixed::from_int(24).clamp_symmetric(bound), bound);
    assert_eq!(Fixed::from_int(-24).clamp_symmetric(bound), Fixed::from_int(-24));
    assert_eq!(Fixed::from_raw(i64::MIN).clamp_symmetric(Fixed::zero()), Fixed::zero());
    assert_eq!(
        Fixed::from_raw(i64::MIN).clamp_symmetric(Fixed::from_raw(i64::MAX)).raw(),
        -i64::MAX
    );
}

#[test]
fn from_nanos_saturates() {
    assert_eq!(Fixed::from_nanos(0), Fixed::zero());
    assert_eq!(Fixed::from_nanos(1_000_000).raw(), 1_000_000);
    assert_eq!(Fixed::from_nanos(i64::MAX as u64).raw(), i64::MAX);
    assert_eq!(Fixed::from_nanos(i64::MAX as u64 + 1).raw(), i64::MAX);
    assert_eq!(Fixed::from_nanos(u64::MAX).raw(), i64::MAX);
}
