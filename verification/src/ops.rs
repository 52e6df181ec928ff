//! The propagation engine: the binary operators on uncertain values.
//!
//! Each operator takes a left operand in one concrete representation and a
//! right operand of any [`Uncertainty`]-conforming type, converts the right
//! operand into the left operand's representation, applies the first-order
//! variance-propagation formula, and yields a new value in the left
//! operand's representation. The two operands are treated as statistically
//! independent, and no operator ever fails: out-of-range and undefined
//! intermediate results propagate as the scalar's sentinel values.

use crate::absolute::AbsUncertainty;
use crate::relative::RelUncertainty;
use crate::scalar::Scalar;
use crate::uncertainty::Uncertainty;
use vstd::prelude::*;

verus! {

/// The uncertainty a sum or a difference propagates: the square root of the
/// sum of the squared native-unit uncertainties, since the variances of
/// independent operands add whatever the sign of the operation.
pub open spec fn add_unc_spec(u1: Scalar, u2: Scalar) -> Scalar {
    u1.pow_int_spec(2).add_spec(u2.pow_int_spec(2)).sqrt_spec()
}

/// The uncertainty a product propagates: the relative-variance combination
/// rescaled into the native unit of the left operand.
pub open spec fn mul_unc_spec(m1: Scalar, u1: Scalar, m2: Scalar, u2: Scalar) -> Scalar {
    u1.pow_int_spec(2).mul_spec(m2.pow_int_spec(2)).add_spec(
        u2.pow_int_spec(2).mul_spec(m1.pow_int_spec(2)),
    ).sqrt_spec()
}

/// The uncertainty a quotient propagates. The second term deliberately
/// follows this library's established quotient formula, which weights the
/// right operand's uncertainty by the square of its squared mean; it is not
/// the symmetric relative-variance rule that the product uses.
pub open spec fn div_unc_spec(m1: Scalar, u1: Scalar, m2: Scalar, u2: Scalar) -> Scalar {
    u1.pow_int_spec(2).div_spec(m2.pow_int_spec(2)).add_spec(
        m1.pow_int_spec(2).mul_spec(u2.mul_spec(m2.pow_int_spec(2)).abs_spec().pow_int_spec(2)),
    ).sqrt_spec()
}

/// The uncertainty an integer power propagates: the first-order rule for a
/// monomial, with the squared exponent weighting the base's uncertainty.
pub open spec fn pow_unc_spec(m: Scalar, u: Scalar, n: int) -> Scalar {
    Scalar::from_int_spec(n).mul_spec(Scalar::from_int_spec(n)).mul_spec(
        m.pow_int_spec(2 * n - 2),
    ).mul_spec(u.pow_int_spec(2)).sqrt_spec()
}

impl AbsUncertainty {
    /// The value that adding an absolute operand yields.
    pub open spec fn add_spec(self, other: AbsUncertainty) -> AbsUncertainty {
        Self::new_spec(
            self.mean.add_spec(other.mean),
            add_unc_spec(self.standard_deviation, other.standard_deviation),
        )
    }

    /// The value that subtracting an absolute operand yields.
    pub open spec fn sub_spec(self, other: AbsUncertainty) -> AbsUncertainty {
        Self::new_spec(
            self.mean.sub_spec(other.mean),
            add_unc_spec(self.standard_deviation, other.standard_deviation),
        )
    }

    /// The value that multiplying by an absolute operand yields.
    pub open spec fn mul_spec(self, other: AbsUncertainty) -> AbsUncertainty {
        Self::new_spec(
            self.mean.mul_spec(other.mean),
            mul_unc_spec(self.mean, self.standard_deviation, other.mean, other.standard_deviation),
        )
    }

    /// The value that dividing by an absolute operand yields.
    pub open spec fn div_spec(self, other: AbsUncertainty) -> AbsUncertainty {
        Self::new_spec(
            self.mean.div_spec(other.mean),
            div_unc_spec(self.mean, self.standard_deviation, other.mean, other.standard_deviation),
        )
    }

    /// Adds any uncertain operand, after converting it to the absolute
    /// representation; the result stays in the absolute representation.
    pub fn add<U: Uncertainty>(self, other: U) -> (r: Self)
        ensures
            r == self.add_spec(other.to_absolute_spec()),
    {
        let o = other.to_absolute();
        Self::new(
            self.mean.add(o.mean),
            self.standard_deviation.pow_int(2).add(o.standard_deviation.pow_int(2)).sqrt(),
        )
    }

    /// Subtracts any uncertain operand, after converting it to the absolute
    /// representation; the result stays in the absolute representation.
    pub fn sub<U: Uncertainty>(self, other: U) -> (r: Self)
        ensures
            r == self.sub_spec(other.to_absolute_spec()),
    {
        let o = other.to_absolute();
        Self::new(
            self.mean.sub(o.mean),
            self.standard_deviation.pow_int(2).add(o.standard_deviation.pow_int(2)).sqrt(),
        )
    }

    /// Multiplies by any uncertain operand, after converting it to the
    /// absolute representation; the result stays in the absolute
    /// representation.
    pub fn mul<U: Uncertainty>(self, other: U) -> (r: Self)
        ensures
            r == self.mul_spec(other.to_absolute_spec()),
    {
        let o = other.to_absolute();
        Self::new(
            self.mean.mul(o.mean),
            self.standard_deviation.pow_int(2).mul(o.mean.pow_int(2)).add(
                o.standard_deviation.pow_int(2).mul(self.mean.pow_int(2)),
            ).sqrt(),
        )
    }

    /// Divides by any uncertain operand, after converting it to the absolute
    /// representation; the result stays in the absolute representation.
    pub fn div<U: Uncertainty>(self, other: U) -> (r: Self)
        ensures
            r == self.div_spec(other.to_absolute_spec()),
    {
        let o = other.to_absolute();
        Self::new(
            self.mean.div(o.mean),
            self.standard_deviation.pow_int(2).div(o.mean.pow_int(2)).add(
                self.mean.pow_int(2).mul(
                    o.standard_deviation.mul(o.mean.pow_int(2)).abs().pow_int(2),
                ),
            ).sqrt(),
        )
    }
}

impl RelUncertainty {
    /// The value that adding a relative operand yields.
    pub open spec fn add_spec(self, other: RelUncertainty) -> RelUncertainty {
        Self::new_spec(
            self.mean.add_spec(other.mean),
            add_unc_spec(self.coefficient_of_variation, other.coefficient_of_variation),
        )
    }

    /// The value that subtracting a relative operand yields.
    pub open spec fn sub_spec(self, other: RelUncertainty) -> RelUncertainty {
        Self::new_spec(
            self.mean.sub_spec(other.mean),
            add_unc_spec(self.coefficient_of_variation, other.coefficient_of_variation),
        )
    }

    /// The value that multiplying by a relative operand yields.
    pub open spec fn mul_spec(self, other: RelUncertainty) -> RelUncertainty {
        Self::new_spec(
            self.mean.mul_spec(other.mean),
            mul_unc_spec(
                self.mean,
                self.coefficient_of_variation,
                other.mean,
                other.coefficient_of_variation,
            ),
        )
    }

    /// The value that dividing by a relative operand yields.
    pub open spec fn div_spec(self, other: RelUncertainty) -> RelUncertainty {
        Self::new_spec(
            self.mean.div_spec(other.mean),
            div_unc_spec(
                self.mean,
                self.coefficient_of_variation,
                other.mean,
                other.coefficient_of_variation,
            ),
        )
    }

    /// Adds any uncertain operand, after converting it to the relative
    /// representation; the result stays in the relative representation.
    pub fn add<U: Uncertainty>(self, other: U) -> (r: Self)
        ensures
            r == self.add_spec(other.to_relative_spec()),
    {
        let o = other.to_relative();
        Self::new(
            self.mean.add(o.mean),
            self.coefficient_of_variation.pow_int(2).add(
                o.coefficient_of_variation.pow_int(2),
            ).sqrt(),
        )
    }

    /// Subtracts any uncertain operand, after converting it to the relative
    /// representation; the result stays in the relative representation.
    pub fn sub<U: Uncertainty>(self, other: U) -> (r: Self)
        ensures
            r == self.sub_spec(other.to_relative_spec()),
    {
        let o = other.to_relative();
        Self::new(
            self.mean.sub(o.mean),
            self.coefficient_of_variation.pow_int(2).add(
                o.coefficient_of_variation.pow_int(2),
            ).sqrt(),
        )
    }

    /// Multiplies by any uncertain operand, after converting it to the
    /// relative representation; the result stays in the relative
    /// representation.
    pub fn mul<U: Uncertainty>(self, other: U) -> (r: Self)
        ensures
            r == self.mul_spec(other.to_relative_spec()),
    {
        let o = other.to_relative();
        Self::new(
            self.mean.mul(o.mean),
            self.coefficient_of_variation.pow_int(2).mul(o.mean.pow_int(2)).add(
                o.coefficient_of_variation.pow_int(2).mul(self.mean.pow_int(2)),
            ).sqrt(),
        )
    }

    /// Divides by any uncertain operand, after converting it to the relative
    /// representation; the result stays in the relative representation.
    pub fn div<U: Uncertainty>(self, other: U) -> (r: Self)
        ensures
            r == self.div_spec(other.to_relative_spec()),
    {
        let o = other.to_relative();
        Self::new(
            self.mean.div(o.mean),
            self.coefficient_of_variation.pow_int(2).div(o.mean.pow_int(2)).add(
                self.mean.pow_int(2).mul(
                    o.coefficient_of_variation.mul(o.mean.pow_int(2)).abs().pow_int(2),
                ),
            ).sqrt(),
        )
    }
}

} // verus!
