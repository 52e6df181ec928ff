use cert::AbsUncertainty;
use cert::RelUncertainty;
use cert::Scalar;
use cert::Uncertainty;

fn require_send<T: Send>() {}

fn require_sync<T: Sync>() {}

#[test]
fn relative_test_send() {
    require_send::<RelUncertainty>();
}

#[test]
fn relative_test_sync() {
    require_sync::<RelUncertainty>();
}

#[test]
fn test_relative_round_trip() {
    // The mean is two and the coefficient of variation is one half.
    let relative = RelUncertainty::new(Scalar::from_int(2), Scalar::from_raw(500_000_000));

    let absolute = AbsUncertainty::from(relative);
    let result = RelUncertainty::from(absolute);

    assert_eq!(relative.mean(), result.mean());
    assert_eq!(relative.standard_deviation(), result.standard_deviation());
    assert_eq!(result.coefficient_of_variation(), Scalar::Finite(500_000_000));
    assert_eq!(result.standard_deviation(), Scalar::Finite(1_000_000_000));
}

#[test]
fn test_relative_new_normalizes_uncertainty() {
    let mean = Scalar::from_int(7);
    let plus = RelUncertainty::new(mean, Scalar::from_raw(250_000_000));
    let minus = RelUncertainty::new(mean, Scalar::from_raw(-250_000_000));
    assert_eq!(plus.uncertainty(), minus.uncertainty());
    assert_eq!(minus.uncertainty(), Scalar::Finite(250_000_000));
}

#[test]
fn test_relative_is_certain() {
    let certain = RelUncertainty::new(Scalar::from_int(5), Scalar::Finite(0));
    assert!(certain.is_certain());
    let uncertain = RelUncertainty::new(Scalar::from_int(5), Scalar::from_raw(100_000_000));
    assert!(!uncertain.is_certain());
}

#[test]
fn test_relative_accessors() {
    // The mean is ten and the relative error is one tenth.
    let value = RelUncertainty::new(Scalar::from_int(10), Scalar::from_raw(100_000_000));
    assert_eq!(value.mean(), Scalar::Finite(10_000_000_000));
    assert_eq!(value.coefficient_of_variation(), Scalar::Finite(100_000_000));
    assert_eq!(value.uncertainty(), Scalar::Finite(100_000_000));
    // The standard deviation is the mean times the coefficient: one.
    assert_eq!(value.standard_deviation(), Scalar::Finite(1_000_000_000));
}

#[test]
fn test_relative_zero_and_default() {
    let zero = RelUncertainty::zero();
    assert!(zero.is_zero());
    assert_eq!(zero.mean(), Scalar::Finite(0));
    assert_eq!(zero.coefficient_of_variation(), Scalar::Finite(0));
    assert_eq!(RelUncertainty::default(), zero);
}

#[test]
fn test_relative_add() {
    let a = RelUncertainty::new(Scalar::from_int(10), Scalar::from_raw(100_000_000));
    let b = RelUncertainty::new(Scalar::from_int(5), Scalar::from_raw(400_000_000));
    let sum = a.add(b);
    assert_eq!(sum.mean(), Scalar::Finite(15_000_000_000));
    // The combined relative error is sqrt(0.1^2 + 0.4^2), rounded down.
    assert_eq!(sum.coefficient_of_variation(), Scalar::Finite(412_310_562));
    // Swapping the operands changes nothing within one representation.
    let swapped = b.add(a);
    assert_eq!(swapped.mean(), sum.mean());
    assert_eq!(swapped.coefficient_of_variation(), sum.coefficient_of_variation());
}

#[test]
fn test_relative_mul_by_certain_scalar() {
    let a = RelUncertainty::new(Scalar::from_int(10), Scalar::from_raw(100_000_000));
    let product = a.mul(Scalar::from_int(2));
    assert_eq!(product.mean(), Scalar::Finite(20_000_000_000));
    // The exact operand contributes nothing: sqrt(0.1^2 * 2^2) = 0.2.
    assert_eq!(product.coefficient_of_variation(), Scalar::Finite(200_000_000));
}

#[test]
fn test_relative_powi() {
    let value = RelUncertainty::new(Scalar::from_int(2), Scalar::from_raw(500_000_000));
    let cubed = value.powi(3);
    assert_eq!(cubed.mean(), Scalar::Finite(8_000_000_000));
    // The propagated coefficient is sqrt(3^2 * 2^4 * 0.5^2) = 6 exactly.
    assert_eq!(cubed.coefficient_of_variation(), Scalar::Finite(6_000_000_000));
}

#[test]
fn test_relative_divide_by_zero_mean() {
    let a = RelUncertainty::new(Scalar::Finite(0), Scalar::from_raw(100_000_000));
    let b = RelUncertainty::new(Scalar::Finite(0), Scalar::from_raw(200_000_000));
    let quotient = a.div(b);
    // Zero over zero is the undefined sentinel, not a failure.
    assert!(quotient.mean().is_nan());
}
