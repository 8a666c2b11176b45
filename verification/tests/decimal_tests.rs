use dsla::decimal::Decimal;
use dsla::errors::ErrorCode;
use dsla::sla;
use dsla::slo::SloType;

#[test]
fn new_keeps_mantissa_and_scale() {
    let d = Decimal::new(12345, 2);
    assert_eq!(d.mantissa, 12345);
    assert_eq!(d.scale, 2);
}

#[test]
fn add_rescales_to_the_common_scale() {
    // 123.45 + 1 == 124.45 at scale 2.
    let r = Decimal::new(12345, 2).add(&Decimal::new(1, 0));
    assert_eq!(r.mantissa, 12445);
    assert_eq!(r.scale, 2);
}

#[test]
fn sub_rescales_to_the_common_scale() {
    // 123.45 - 1 == 122.45 at scale 2.
    let r = Decimal::new(12345, 2).sub(&Decimal::new(1, 0));
    assert_eq!(r.mantissa, 12245);
    assert_eq!(r.scale, 2);
}

#[test]
fn mul_multiplies_mantissas_and_adds_scales() {
    // 2.5 * 4 == 10.0 at scale 1.
    let r = Decimal::new(25, 1).mul(&Decimal::new(4, 0));
    assert_eq!(r.mantissa, 100);
    assert_eq!(r.scale, 1);
}

#[test]
fn div_truncates_toward_zero_at_scale_zero() {
    // 10.0 / 4 == 2 (2.5 truncated).
    let r = Decimal::new(100, 1).div(&Decimal::new(4, 0)).unwrap();
    assert_eq!(r.mantissa, 2);
    assert_eq!(r.scale, 0);
}

#[test]
fn div_by_a_zero_value_fails() {
    let r = Decimal::new(5, 0).div(&Decimal::new(0, 3));
    assert!(matches!(r, Err(ErrorCode::DivisionByZero)));
}

#[test]
fn comparisons_are_by_value_not_by_representation() {
    // 1.0 at scale 1 equals 1 at scale 0.
    let a = Decimal::new(10, 1);
    let b = Decimal::new(1, 0);
    assert!(a.eq(&b));
    assert!(!a.ne(&b));
    assert!(a.lte(&b));
    assert!(a.gte(&b));
    assert!(!a.lt(&b));
    assert!(!a.gt(&b));
    let c = Decimal::new(11, 1);
    assert!(c.gt(&b));
    assert!(b.lt(&c));
}

#[test]
fn rescale_up_and_back_restores_the_value() {
    let d = Decimal::new(12345, 2);
    let up = d.to_scale(4);
    assert_eq!(up.mantissa, 1234500);
    assert_eq!(up.scale, 4);
    let back = up.to_scale(2);
    assert_eq!(back.mantissa, 12345);
    assert_eq!(back.scale, 2);
}

#[test]
fn rescale_down_truncates_low_digits() {
    let d = Decimal::new(12345, 2);
    let down = d.to_scale(0);
    assert_eq!(down.mantissa, 123);
    assert_eq!(down.scale, 0);
    let up = down.to_scale(2);
    assert_eq!(up.mantissa, 12300);
}

#[test]
fn decimal_objective_respects_value_semantics() {
    let s = sla::Slo {
        slo_value: Decimal::new(100, 0),
        slo_type: SloType::EqualTo,
    };
    // 10.0 at scale 1 is not 100; 1000 at scale 1 is.
    assert_eq!(s.is_respected(Decimal::new(1000, 1)), Ok(true));
    assert_eq!(s.is_respected(Decimal::new(100, 1)), Ok(false));
}

#[test]
fn decimal_deviation_is_capped() {
    let s = sla::Slo {
        slo_value: Decimal::new(10000, 0),
        slo_type: SloType::SmallerThan,
    };
    let d = s.get_deviation(Decimal::new(1, 0), 10000).unwrap();
    assert_eq!(d.mantissa, 2500);
    assert_eq!(d.scale, 0);
}

#[test]
fn decimal_deviation_of_equality_kinds_is_one_percent() {
    let s = sla::Slo {
        slo_value: Decimal::new(10000, 0),
        slo_type: SloType::NotEqualTo,
    };
    let d = s.get_deviation(Decimal::new(999999999, 0), 10000).unwrap();
    assert_eq!(d.mantissa, 100);
    assert_eq!(d.scale, 0);
}

#[test]
fn decimal_deviation_rejects_invalid_precision() {
    let s = sla::Slo {
        slo_value: Decimal::new(10000, 0),
        slo_type: SloType::GreaterThan,
    };
    assert!(matches!(
        s.get_deviation(Decimal::new(1, 0), 10),
        Err(ErrorCode::InvalidPrecision)
    ));
    assert!(matches!(
        s.get_deviation(Decimal::new(1, 0), 100001),
        Err(ErrorCode::InvalidPrecision)
    ));
}

#[test]
fn decimal_deviation_rejects_a_zero_mean() {
    let s = sla::Slo {
        slo_value: Decimal::new(0, 0),
        slo_type: SloType::GreaterThan,
    };
    assert!(matches!(
        s.get_deviation(Decimal::new(0, 0), 100),
        Err(ErrorCode::DivisionByZero)
    ));
}
