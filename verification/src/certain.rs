//! The exactly-known scalar as a degenerate uncertain value.
//!
//! A bare [`Scalar`] satisfies the [`Uncertainty`] capability with an error
//! component that is exactly zero. This identity-element adapter lets exact
//! and uncertain values mix in the same arithmetic expressions without
//! wrapper boilerplate.

use crate::absolute::AbsUncertainty;
use crate::relative::RelUncertainty;
use crate::scalar::Scalar;
use crate::uncertainty::Uncertainty;
use vstd::prelude::*;

verus! {

impl Uncertainty for Scalar {
    /// Construction keeps the mean alone: an exactly-known quantity has no
    /// error component to store.
    open spec fn new_spec(mean: Scalar, uncertainty: Scalar) -> Self {
        mean
    }

    open spec fn mean_spec(&self) -> Scalar {
        *self
    }

    open spec fn standard_deviation_spec(&self) -> Scalar {
        Scalar::zero_spec()
    }

    open spec fn coefficient_of_variation_spec(&self) -> Scalar {
        Scalar::zero_spec()
    }

    open spec fn uncertainty_spec(&self) -> Scalar {
        Scalar::zero_spec()
    }

    open spec fn powi_spec(&self, n: int) -> Self {
        (*self).pow_int_spec(n)
    }

    open spec fn to_absolute_spec(&self) -> AbsUncertainty {
        AbsUncertainty::new_spec(*self, Scalar::zero_spec())
    }

    open spec fn to_relative_spec(&self) -> RelUncertainty {
        RelUncertainty::new_spec(*self, Scalar::zero_spec())
    }

    fn new(mean: Scalar, _uncertainty: Scalar) -> (r: Self) {
        mean
    }

    fn mean(&self) -> (r: Scalar) {
        *self
    }

    fn standard_deviation(&self) -> (r: Scalar) {
        Scalar::Finite(0)
    }

    fn coefficient_of_variation(&self) -> (r: Scalar) {
        Scalar::Finite(0)
    }

    fn uncertainty(&self) -> (r: Scalar) {
        Scalar::Finite(0)
    }

    fn is_certain(&self) -> (r: bool) {
        true
    }

    fn powi(&self, n: i32) -> (r: Self) {
        self.pow_int(n as i64)
    }

    fn to_absolute(&self) -> (r: AbsUncertainty) {
        AbsUncertainty::new(*self, Scalar::Finite(0))
    }

    fn to_relative(&self) -> (r: RelUncertainty) {
        RelUncertainty::new(*self, Scalar::Finite(0))
    }
}

impl From<Scalar> for AbsUncertainty {
    /// An exactly-known scalar is an absolute uncertainty with a zero
    /// standard deviation.
    fn from(val: Scalar) -> (r: AbsUncertainty) {
        AbsUncertainty::new(val, Scalar::Finite(0))
    }
}

impl vstd::std_specs::convert::FromSpecImpl<Scalar> for AbsUncertainty {
    open spec fn obeys_from_spec() -> bool {
        true
    }

    open spec fn from_spec(v: Scalar) -> AbsUncertainty {
        v.to_absolute_spec()
    }
}

impl From<Scalar> for RelUncertainty {
    /// An exactly-known scalar is a relative uncertainty with a zero
    /// coefficient of variation.
    fn from(val: Scalar) -> (r: RelUncertainty) {
        RelUncertainty::new(val, Scalar::Finite(0))
    }
}

impl vstd::std_specs::convert::FromSpecImpl<Scalar> for RelUncertainty {
    open spec fn obeys_from_spec() -> bool {
        true
    }

    open spec fn from_spec(v: Scalar) -> RelUncertainty {
        v.to_relative_spec()
    }
}

impl From<AbsUncertainty> for Scalar {
    /// Collapsing an absolute uncertainty to a bare scalar keeps the mean
    /// and forgets the standard deviation.
    fn from(val: AbsUncertainty) -> (r: Scalar) {
        val.mean
    }
}

impl vstd::std_specs::convert::FromSpecImpl<AbsUncertainty> for Scalar {
    open spec fn obeys_from_spec() -> bool {
        true
    }

    open spec fn from_spec(v: AbsUncertainty) -> Scalar {
        v.mean
    }
}

} // verus!
