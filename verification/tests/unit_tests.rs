use clemen::unit::SizeUnit;

fn px(v: i64) -> SizeUnit {
    SizeUnit::Pixel(v)
}

#[test]
fn unit_add_sub() {
    assert_eq!(px(3).add(px(4)), px(7));
    assert_eq!(px(3).sub(px(4)), px(-1));
    assert_eq!(px(0).add(px(0)), px(0));
}

#[test]
fn unit_mul() {
    assert_eq!(px(6).mul(px(7)), px(42));
    assert_eq!(px(-6).mul(px(7)), px(-42));
}

#[test]
fn unit_div_truncates_toward_zero() {
    assert_eq!(px(7).div(px(2)), px(3));
    assert_eq!(px(-7).div(px(2)), px(-3));
    assert_eq!(px(7).div(px(-2)), px(-3));
    assert_eq!(px(-7).div(px(-2)), px(3));
    assert_eq!(px(140).div(px(3)), px(46));
}

#[test]
fn unit_abs() {
    assert_eq!(px(-5).abs(), px(5));
    assert_eq!(px(5).abs(), px(5));
    assert_eq!(px(0).abs(), px(0));
    assert_eq!(px(i64::MIN).abs(), px(i64::MAX));
}

#[test]
fn unit_saturates() {
    assert_eq!(px(i64::MAX).add(px(1)), px(i64::MAX));
    assert_eq!(px(i64::MIN).sub(px(1)), px(i64::MIN));
    assert_eq!(px(i64::MAX).mul(px(2)), px(i64::MAX));
    assert_eq!(px(i64::MIN).mul(px(2)), px(i64::MIN));
    assert_eq!(px(i64::MAX).mul(px(-2)), px(i64::MIN));
}

#[test]
fn unit_comparisons() {
    assert!(px(3).gt(px(2)));
    assert!(!px(2).gt(px(3)));
    assert!(!px(2).gt(px(2)));
    assert!(px(0).is_zero());
    assert!(!px(1).is_zero());
}

#[test]
fn unit_value_round_trip() {
    assert_eq!(SizeUnit::of(17).value(), 17);
    assert_eq!(SizeUnit::of(-17).value(), -17);
}
