//! Quantities whose error is a standard deviation.

use crate::relative::RelUncertainty;
use crate::scalar::Scalar;
use crate::uncertainty::Uncertainty;
use vstd::prelude::*;

verus! {

/// An absolute uncertainty: a quantity characterized by a mean and a
/// standard deviation, the latter expressed in the same unit as the mean.
///
/// Construction normalizes the standard deviation to be non-negative, so a
/// well-formed value always carries its error as a magnitude.
#[derive(Clone, Copy, Debug, PartialEq, Eq, Structural)]
pub struct AbsUncertainty {
    /// The central estimate of the underlying quantity.
    pub mean: Scalar,
    /// The standard deviation of the underlying quantity.
    pub standard_deviation: Scalar,
}

impl AbsUncertainty {
    /// A well-formed value carries its standard deviation as a magnitude,
    /// the shape construction always leaves it in.
    pub open spec fn wf(&self) -> bool {
        self.standard_deviation == self.standard_deviation.abs_spec()
    }

    /// Builds a value from a mean and an already-interpreted standard
    /// deviation, normalizing the latter to its magnitude.
    pub(crate) fn from_parts(mean: Scalar, standard_deviation: Scalar) -> (r: Self)
        ensures
            r.mean == mean,
            r.standard_deviation == standard_deviation.abs_spec(),
    {
        AbsUncertainty { mean, standard_deviation: standard_deviation.abs() }
    }

    /// The value with a zero mean and a zero standard deviation.
    pub fn zero() -> (r: Self)
        ensures
            r.mean == Scalar::zero_spec(),
            r.standard_deviation == Scalar::zero_spec(),
    {
        AbsUncertainty { mean: Scalar::Finite(0), standard_deviation: Scalar::Finite(0) }
    }

    /// True exactly when the mean is zero, whatever the standard deviation.
    pub fn is_zero(&self) -> (r: bool)
        ensures
            r == (self.mean == Scalar::zero_spec()),
    {
        self.mean.is_zero()
    }
}

impl Default for AbsUncertainty {
    /// The default value is the zero quantity.
    fn default() -> (r: Self)
        ensures
            r.mean == Scalar::zero_spec(),
            r.standard_deviation == Scalar::zero_spec(),
    {
        AbsUncertainty::zero()
    }
}

impl Uncertainty for AbsUncertainty {
    open spec fn new_spec(mean: Scalar, uncertainty: Scalar) -> Self {
        AbsUncertainty { mean, standard_deviation: uncertainty.abs_spec() }
    }

    open spec fn mean_spec(&self) -> Scalar {
        self.mean
    }

    open spec fn standard_deviation_spec(&self) -> Scalar {
        self.standard_deviation
    }

    open spec fn coefficient_of_variation_spec(&self) -> Scalar {
        self.standard_deviation.div_spec(self.mean)
    }

    open spec fn uncertainty_spec(&self) -> Scalar {
        self.standard_deviation
    }

    open spec fn powi_spec(&self, n: int) -> Self {
        Self::new_spec(
            self.mean.pow_int_spec(n),
            crate::ops::pow_unc_spec(self.mean, self.standard_deviation, n),
        )
    }

    open spec fn to_absolute_spec(&self) -> AbsUncertainty {
        *self
    }

    open spec fn to_relative_spec(&self) -> RelUncertainty {
        RelUncertainty {
            mean: self.mean,
            coefficient_of_variation: self.standard_deviation.div_spec(self.mean).abs_spec(),
        }
    }

    fn new(mean: Scalar, standard_deviation: Scalar) -> (r: Self) {
        AbsUncertainty { mean, standard_deviation: standard_deviation.abs() }
    }

    fn mean(&self) -> (r: Scalar) {
        self.mean
    }

    fn standard_deviation(&self) -> (r: Scalar) {
        self.standard_deviation
    }

    fn coefficient_of_variation(&self) -> (r: Scalar) {
        self.standard_deviation.div(self.mean)
    }

    // The uncertainty is the standard deviation for an absolute uncertainty.
    fn uncertainty(&self) -> (r: Scalar) {
        self.standard_deviation
    }

    fn is_certain(&self) -> (r: bool) {
        self.standard_deviation.is_zero()
    }

    fn powi(&self, n: i32) -> (r: Self) {
        let factor = Scalar::from_int(n as i64);
        let exponent: i64 = 2 * (n as i64) - 2;
        let propagated = factor.mul(factor).mul(self.mean.pow_int(exponent)).mul(
            self.standard_deviation.pow_int(2),
        ).sqrt();
        Self::new(self.mean.pow_int(n as i64), propagated)
    }

    fn to_absolute(&self) -> (r: AbsUncertainty) {
        *self
    }

    fn to_relative(&self) -> (r: RelUncertainty) {
        RelUncertainty::from_parts(self.mean, self.standard_deviation.div(self.mean))
    }
}

impl From<AbsUncertainty> for RelUncertainty {
    /// Reads the quantity as a relative uncertainty; the coefficient of
    /// variation is the standard deviation over the mean, so a zero mean
    /// leaves a sentinel in the error component.
    fn from(val: AbsUncertainty) -> (r: RelUncertainty) {
        RelUncertainty::new(val.mean, val.standard_deviation.div(val.mean))
    }
}

impl vstd::std_specs::convert::FromSpecImpl<AbsUncertainty> for RelUncertainty {
    open spec fn obeys_from_spec() -> bool {
        true
    }

    open spec fn from_spec(v: AbsUncertainty) -> RelUncertainty {
        v.to_relative_spec()
    }
}

} // verus!
