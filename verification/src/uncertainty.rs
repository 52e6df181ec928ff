//! The capability that every uncertain-value representation satisfies.

use crate::absolute::AbsUncertainty;
use crate::relative::RelUncertainty;
use crate::scalar::Scalar;
use vstd::prelude::*;

verus! {

/// Common behaviour of quantities that carry an associated uncertainty.
///
/// The trait pairs every operation with a specification function that pins
/// down the returned value exactly, so that code generic over an uncertain
/// operand can still be reasoned about precisely. The error component is
/// interpreted by the implementing representation: it is the standard
/// deviation for an absolute uncertainty, the coefficient of variation for a
/// relative one, and ignored by an exactly-known scalar.
pub trait Uncertainty: Sized + Copy {
    /// The value that construction from a mean and an error component yields.
    spec fn new_spec(mean: Scalar, uncertainty: Scalar) -> Self;

    /// The central estimate of the quantity.
    spec fn mean_spec(&self) -> Scalar;

    /// The error expressed in the same unit as the mean.
    spec fn standard_deviation_spec(&self) -> Scalar;

    /// The error expressed as a fraction of the mean.
    spec fn coefficient_of_variation_spec(&self) -> Scalar;

    /// The error in the representation's native unit: the one the
    /// propagation engine operates on without re-derivation.
    spec fn uncertainty_spec(&self) -> Scalar;

    /// The value that raising to an integer power yields.
    spec fn powi_spec(&self, n: int) -> Self;

    /// The same quantity seen as an absolute uncertainty.
    spec fn to_absolute_spec(&self) -> AbsUncertainty;

    /// The same quantity seen as a relative uncertainty.
    spec fn to_relative_spec(&self) -> RelUncertainty;

    /// Constructs a value from a mean and an error component; the error is
    /// normalized to be non-negative by the representations that keep one.
    fn new(mean: Scalar, uncertainty: Scalar) -> (r: Self)
        ensures
            r == Self::new_spec(mean, uncertainty),
    ;

    /// Returns the mean of the value.
    fn mean(&self) -> (r: Scalar)
        ensures
            r == self.mean_spec(),
    ;

    /// Returns the standard deviation of the value.
    fn standard_deviation(&self) -> (r: Scalar)
        ensures
            r == self.standard_deviation_spec(),
    ;

    /// Returns the coefficient of variation: the ratio of the standard
    /// deviation and the mean, which describes the relative error.
    fn coefficient_of_variation(&self) -> (r: Scalar)
        ensures
            r == self.coefficient_of_variation_spec(),
    ;

    /// Returns the error component in the representation's native unit.
    fn uncertainty(&self) -> (r: Scalar)
        ensures
            r == self.uncertainty_spec(),
    ;

    /// Returns true exactly when the uncertainty is zero.
    ///
    /// This test is useful before handing the value to an operation that
    /// divides by the uncertainties.
    fn is_certain(&self) -> (r: bool)
        ensures
            r == (self.uncertainty_spec() == Scalar::zero_spec()),
    ;

    /// Raises the value to the nth power, with propagated uncertainty.
    fn powi(&self, n: i32) -> (r: Self)
        ensures
            r == self.powi_spec(n as int),
    ;

    /// Converts the value into an absolute uncertainty.
    fn to_absolute(&self) -> (r: AbsUncertainty)
        ensures
            r == self.to_absolute_spec(),
    ;

    /// Converts the value into a relative uncertainty.
    fn to_relative(&self) -> (r: RelUncertainty)
        ensures
            r == self.to_relative_spec(),
    ;
}

} // verus!
