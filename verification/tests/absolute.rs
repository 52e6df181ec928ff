use cert::AbsUncertainty;
use cert::RelUncertainty;
use cert::Scalar;
use cert::Uncertainty;

fn require_send<T: Send>() {}

fn require_sync<T: Sync>() {}

#[test]
fn absolute_test_send() {
    require_send::<AbsUncertainty>();
}

#[test]
fn absolute_test_sync() {
    require_sync::<AbsUncertainty>();
}

#[test]
fn test_absolute_round_trip() {
    let absolute = AbsUncertainty::new(Scalar::from_int(10), Scalar::from_int(1));

    let relative = RelUncertainty::from(absolute);
    let result = AbsUncertainty::from(relative);

    assert_eq!(absolute.mean(), result.mean());
    assert_eq!(absolute.standard_deviation(), result.standard_deviation());
    assert_eq!(result.mean(), Scalar::Finite(10_000_000_000));
    assert_eq!(result.standard_deviation(), Scalar::Finite(1_000_000_000));
}

#[test]
fn test_absolute_round_trip_rounds_down() {
    // A mean of three does not divide the scaled deviation evenly, so the
    // round trip comes back one grid unit short of the original deviation.
    let absolute = AbsUncertainty::new(Scalar::from_int(3), Scalar::from_int(1));
    let result = AbsUncertainty::from(RelUncertainty::from(absolute));
    assert_eq!(result.mean(), absolute.mean());
    assert_eq!(result.standard_deviation(), Scalar::Finite(999_999_999));
}

#[test]
fn test_absolute_new_normalizes_uncertainty() {
    let mean = Scalar::from_int(7);
    let plus = AbsUncertainty::new(mean, Scalar::from_int(3));
    let minus = AbsUncertainty::new(mean, Scalar::from_int(-3));
    assert_eq!(plus.uncertainty(), minus.uncertainty());
    assert_eq!(minus.uncertainty(), Scalar::Finite(3_000_000_000));
}

#[test]
fn test_absolute_is_certain() {
    let certain = AbsUncertainty::new(Scalar::from_int(5), Scalar::Finite(0));
    assert!(certain.is_certain());
    let uncertain = AbsUncertainty::new(Scalar::from_int(5), Scalar::from_int(1));
    assert!(!uncertain.is_certain());
    let undefined = AbsUncertainty::new(Scalar::from_int(5), Scalar::NaN);
    assert!(!undefined.is_certain());
}

#[test]
fn test_absolute_accessors() {
    let value = AbsUncertainty::new(Scalar::from_int(10), Scalar::from_int(1));
    assert_eq!(value.mean(), Scalar::Finite(10_000_000_000));
    assert_eq!(value.standard_deviation(), Scalar::Finite(1_000_000_000));
    assert_eq!(value.uncertainty(), Scalar::Finite(1_000_000_000));
    // The coefficient of variation is one tenth.
    assert_eq!(value.coefficient_of_variation(), Scalar::Finite(100_000_000));
}

#[test]
fn test_absolute_zero_mean_coefficient_is_not_finite() {
    let value = AbsUncertainty::new(Scalar::Finite(0), Scalar::from_int(1));
    assert!(value.coefficient_of_variation().is_infinite());
}

#[test]
fn test_absolute_zero_and_default() {
    let zero = AbsUncertainty::zero();
    assert!(zero.is_zero());
    assert_eq!(zero.mean(), Scalar::Finite(0));
    assert_eq!(zero.standard_deviation(), Scalar::Finite(0));
    let default = AbsUncertainty::default();
    assert_eq!(default, zero);
    // A zero mean alone makes the quantity zero, whatever its deviation.
    let wide = AbsUncertainty::new(Scalar::Finite(0), Scalar::from_int(4));
    assert!(wide.is_zero());
}

#[test]
fn test_absolute_powi() {
    let value = AbsUncertainty::new(Scalar::from_int(10), Scalar::from_int(1));
    let squared = value.powi(2);
    assert_eq!(squared.mean(), Scalar::Finite(100_000_000_000));
    // The propagated deviation is sqrt(2^2 * 10^2 * 1^2) = 20 exactly.
    assert_eq!(squared.standard_deviation(), Scalar::Finite(20_000_000_000));
}

#[test]
fn test_absolute_powi_zero_exponent() {
    let value = AbsUncertainty::new(Scalar::from_int(10), Scalar::from_int(1));
    let unit = value.powi(0);
    assert_eq!(unit.mean(), Scalar::Finite(1_000_000_000));
}

#[test]
fn test_absolute_powi_negative_exponent() {
    let value = AbsUncertainty::new(Scalar::from_int(2), Scalar::Finite(0));
    let inverse = value.powi(-1);
    assert_eq!(inverse.mean(), Scalar::Finite(500_000_000));
    // An exactly-known base keeps an exactly-known power.
    assert_eq!(inverse.standard_deviation(), Scalar::Finite(0));
}
