use cert::AbsUncertainty;
use cert::RelUncertainty;
use cert::Scalar;
use cert::Uncertainty;

#[test]
fn test_add_absolute_values() {
    let a = AbsUncertainty::new(Scalar::from_int(10), Scalar::from_int(1));
    let b = AbsUncertainty::new(Scalar::from_int(5), Scalar::from_int(2));
    let sum = a.add(b);
    assert_eq!(sum.mean(), Scalar::Finite(15_000_000_000));
    // The combined deviation is sqrt(1^2 + 2^2) = sqrt(5), rounded down.
    assert_eq!(sum.standard_deviation(), Scalar::Finite(2_236_067_977));
    // Addition commutes in both components.
    let swapped = b.add(a);
    assert_eq!(swapped.mean(), sum.mean());
    assert_eq!(swapped.standard_deviation(), sum.standard_deviation());
}

#[test]
fn test_sub_absolute_values() {
    let a = AbsUncertainty::new(Scalar::from_int(10), Scalar::from_int(1));
    let b = AbsUncertainty::new(Scalar::from_int(5), Scalar::from_int(2));
    let difference = a.sub(b);
    assert_eq!(difference.mean(), Scalar::Finite(5_000_000_000));
    // The variances still add whatever the sign of the operation.
    assert_eq!(difference.standard_deviation(), Scalar::Finite(2_236_067_977));
}

#[test]
fn test_mul_absolute_values() {
    let a = AbsUncertainty::new(Scalar::from_int(10), Scalar::from_int(1));
    let b = AbsUncertainty::new(Scalar::from_int(5), Scalar::from_int(2));
    let product = a.mul(b);
    assert_eq!(product.mean(), Scalar::Finite(50_000_000_000));
    // The combined deviation is sqrt(1^2 * 5^2 + 2^2 * 10^2), rounded down.
    assert_eq!(product.standard_deviation(), Scalar::Finite(20_615_528_128));
}

#[test]
fn test_div_absolute_values() {
    let a = AbsUncertainty::new(Scalar::from_int(10), Scalar::from_int(1));
    let b = AbsUncertainty::new(Scalar::from_int(5), Scalar::from_int(2));
    let quotient = a.div(b);
    assert_eq!(quotient.mean(), Scalar::Finite(2_000_000_000));
    // The library's quotient formula gives sqrt(1/25 + 100 * (2 * 25)^2),
    // rounded down.
    assert_eq!(quotient.standard_deviation(), Scalar::Finite(500_000_039_999));
}

#[test]
fn test_divide_by_zero_mean_is_infinite() {
    let a = AbsUncertainty::new(Scalar::from_int(10), Scalar::from_int(1));
    let b = AbsUncertainty::new(Scalar::Finite(0), Scalar::from_int(2));
    let quotient = a.div(b);
    assert_eq!(quotient.mean(), Scalar::PosInf);
    let negated = AbsUncertainty::new(Scalar::from_int(-10), Scalar::from_int(1));
    assert_eq!(negated.div(b).mean(), Scalar::NegInf);
}

#[test]
fn test_add_certain_scalar_to_absolute() {
    let a = AbsUncertainty::new(Scalar::from_int(10), Scalar::from_int(1));
    let sum = a.add(Scalar::from_int(5));
    assert_eq!(sum.mean(), Scalar::Finite(15_000_000_000));
    // The exact operand contributes no variance.
    assert_eq!(sum.standard_deviation(), Scalar::Finite(1_000_000_000));
}

#[test]
fn test_add_relative_operand_to_absolute() {
    let a = AbsUncertainty::new(Scalar::from_int(10), Scalar::from_int(1));
    // A relative operand with mean five and relative error two fifths: its
    // standard deviation is two.
    let b = RelUncertainty::new(Scalar::from_int(5), Scalar::from_raw(400_000_000));
    let sum = a.add(b);
    assert_eq!(sum.mean(), Scalar::Finite(15_000_000_000));
    assert_eq!(sum.standard_deviation(), Scalar::Finite(2_236_067_977));
}

#[test]
fn test_certain_scalar_adapter() {
    let x = Scalar::from_int(42);
    assert_eq!(x.mean(), x);
    assert_eq!(x.uncertainty(), Scalar::Finite(0));
    assert_eq!(x.standard_deviation(), Scalar::Finite(0));
    assert_eq!(x.coefficient_of_variation(), Scalar::Finite(0));
    assert!(x.is_certain());
    let absolute = x.to_absolute();
    assert_eq!(absolute.mean(), x);
    assert_eq!(absolute.standard_deviation(), Scalar::Finite(0));
    let relative = x.to_relative();
    assert_eq!(relative.mean(), x);
    assert_eq!(relative.coefficient_of_variation(), Scalar::Finite(0));
}

#[test]
fn test_certain_scalar_construction_ignores_uncertainty() {
    let x = <Scalar as Uncertainty>::new(Scalar::from_int(3), Scalar::from_int(9));
    assert_eq!(x, Scalar::Finite(3_000_000_000));
    assert!(x.is_certain());
}

#[test]
fn test_certain_scalar_powi() {
    let x = Scalar::from_int(3);
    assert_eq!(x.powi(2), Scalar::Finite(9_000_000_000));
}

#[test]
fn test_scalar_conversions() {
    let absolute = AbsUncertainty::from(Scalar::from_int(6));
    assert_eq!(absolute.mean(), Scalar::Finite(6_000_000_000));
    assert_eq!(absolute.standard_deviation(), Scalar::Finite(0));
    let relative = RelUncertainty::from(Scalar::from_int(6));
    assert_eq!(relative.coefficient_of_variation(), Scalar::Finite(0));
    let collapsed = Scalar::from(AbsUncertainty::new(
        Scalar::from_int(6),
        Scalar::from_int(1),
    ));
    assert_eq!(collapsed, Scalar::Finite(6_000_000_000));
}
