//! Quantities whose error is a coefficient of variation.

use crate::absolute::AbsUncertainty;
use crate::scalar::Scalar;
use crate::uncertainty::Uncertainty;
use vstd::prelude::*;

verus! {

/// A relative uncertainty: a quantity characterized by a mean and a
/// coefficient of variation, the ratio of the standard deviation to the
/// mean, stored as a fractional quantity.
///
/// Construction normalizes the coefficient of variation to be non-negative,
/// so a well-formed value always carries its error as a magnitude.
#[derive(Clone, Copy, Debug, PartialEq, Eq, Structural)]
pub struct RelUncertainty {
    /// The central estimate of the underlying quantity.
    pub mean: Scalar,
    /// The coefficient of variation of the underlying quantity.
    pub coefficient_of_variation: Scalar,
}

impl RelUncertainty {
    /// A well-formed value carries its coefficient of variation as a
    /// magnitude, the shape construction always leaves it in.
    pub open spec fn wf(&self) -> bool {
        self.coefficient_of_variation == self.coefficient_of_variation.abs_spec()
    }

    /// Builds a value from a mean and an already-interpreted coefficient of
    /// variation, normalizing the latter to its magnitude.
    pub(crate) fn from_parts(mean: Scalar, coefficient_of_variation: Scalar) -> (r: Self)
        ensures
            r.mean == mean,
            r.coefficient_of_variation == coefficient_of_variation.abs_spec(),
    {
        RelUncertainty {
            mean,
            coefficient_of_variation: coefficient_of_variation.abs(),
        }
    }

    /// The value with a zero mean and a zero coefficient of variation.
    pub fn zero() -> (r: Self)
        ensures
            r.mean == Scalar::zero_spec(),
            r.coefficient_of_variation == Scalar::zero_spec(),
    {
        RelUncertainty { mean: Scalar::Finite(0), coefficient_of_variation: Scalar::Finite(0) }
    }

    /// True exactly when the mean is zero, whatever the coefficient of
    /// variation.
    pub fn is_zero(&self) -> (r: bool)
        ensures
            r == (self.mean == Scalar::zero_spec()),
    {
        self.mean.is_zero()
    }
}

impl Default for RelUncertainty {
    /// The default value is the zero quantity.
    fn default() -> (r: Self)
        ensures
            r.mean == Scalar::zero_spec(),
            r.coefficient_of_variation == Scalar::zero_spec(),
    {
        RelUncertainty::zero()
    }
}

impl Uncertainty for RelUncertainty {
    open spec fn new_spec(mean: Scalar, uncertainty: Scalar) -> Self {
        RelUncertainty { mean, coefficient_of_variation: uncertainty.abs_spec() }
    }

    open spec fn mean_spec(&self) -> Scalar {
        self.mean
    }

    open spec fn standard_deviation_spec(&self) -> Scalar {
        self.mean.mul_spec(self.coefficient_of_variation)
    }

    open spec fn coefficient_of_variation_spec(&self) -> Scalar {
        self.coefficient_of_variation
    }

    open spec fn uncertainty_spec(&self) -> Scalar {
        self.coefficient_of_variation
    }

    open spec fn powi_spec(&self, n: int) -> Self {
        Self::new_spec(
            self.mean.pow_int_spec(n),
            crate::ops::pow_unc_spec(self.mean, self.coefficient_of_variation, n),
        )
    }

    open spec fn to_absolute_spec(&self) -> AbsUncertainty {
        AbsUncertainty {
            mean: self.mean,
            standard_deviation: self.coefficient_of_variation.mul_spec(self.mean).abs_spec(),
        }
    }

    open spec fn to_relative_spec(&self) -> RelUncertainty {
        *self
    }

    fn new(mean: Scalar, coefficient_of_variation: Scalar) -> (r: Self) {
        RelUncertainty { mean, coefficient_of_variation: coefficient_of_variation.abs() }
    }

    fn mean(&self) -> (r: Scalar) {
        self.mean
    }

    fn standard_deviation(&self) -> (r: Scalar) {
        self.mean.mul(self.coefficient_of_variation)
    }

    fn coefficient_of_variation(&self) -> (r: Scalar) {
        self.coefficient_of_variation
    }

    // The uncertainty is the coefficient of variation for a relative
    // uncertainty.
    fn uncertainty(&self) -> (r: Scalar) {
        self.coefficient_of_variation
    }

    fn is_certain(&self) -> (r: bool) {
        self.coefficient_of_variation.is_zero()
    }

    fn powi(&self, n: i32) -> (r: Self) {
        let factor = Scalar::from_int(n as i64);
        let exponent: i64 = 2 * (n as i64) - 2;
        let propagated = factor.mul(factor).mul(self.mean.pow_int(exponent)).mul(
            self.coefficient_of_variation.pow_int(2),
        ).sqrt();
        Self::new(self.mean.pow_int(n as i64), propagated)
    }

    fn to_absolute(&self) -> (r: AbsUncertainty) {
        AbsUncertainty::from_parts(self.mean, self.coefficient_of_variation.mul(self.mean))
    }

    fn to_relative(&self) -> (r: RelUncertainty) {
        *self
    }
}

impl From<RelUncertainty> for AbsUncertainty {
    /// Reads the quantity as an absolute uncertainty; the standard deviation
    /// is the coefficient of variation times the mean.
    fn from(val: RelUncertainty) -> (r: AbsUncertainty) {
        AbsUncertainty::new(val.mean, val.coefficient_of_variation.mul(val.mean))
    }
}

impl vstd::std_specs::convert::FromSpecImpl<RelUncertainty> for AbsUncertainty {
    open spec fn obeys_from_spec() -> bool {
        true
    }

    open spec fn from_spec(v: RelUncertainty) -> AbsUncertainty {
        v.to_absolute_spec()
    }
}

} // verus!
