//! The laws that the representations and their arithmetic obey.
//!
//! Each public proof function states a property that holds of every value
//! its premises admit, over the same specification functions that the
//! executable operations are proved against.

use crate::absolute::AbsUncertainty;
use crate::relative::RelUncertainty;
use crate::scalar::iabs;
use crate::scalar::Scalar;
use crate::scalar::MAX_RAW;
use crate::scalar::SCALE;
use crate::uncertainty::Uncertainty;
use vstd::arithmetic::div_mod::lemma_div_by_multiple;
use vstd::arithmetic::div_mod::lemma_div_is_ordered;
use vstd::arithmetic::div_mod::lemma_div_multiples_vanish;
use vstd::arithmetic::div_mod::lemma_div_pos_is_pos;
use vstd::arithmetic::div_mod::lemma_fundamental_div_mod;
use vstd::arithmetic::mul::lemma_mul_is_commutative;
use vstd::arithmetic::mul::lemma_mul_nonnegative;
use vstd::prelude::*;

verus! {

/// Negating a scalar never changes its magnitude.
pub proof fn lemma_abs_of_neg(u: Scalar)
    ensures
        u.neg_spec().abs_spec() == u.abs_spec(),
{
}

/// Construction normalizes the uncertainty component to be non-negative:
/// supplying an error and its opposite builds the very same value, in either
/// representation.
pub proof fn lemma_construction_normalizes(mean: Scalar, uncertainty: Scalar)
    ensures
        AbsUncertainty::new_spec(mean, uncertainty.neg_spec()) == AbsUncertainty::new_spec(
            mean,
            uncertainty,
        ),
        RelUncertainty::new_spec(mean, uncertainty.neg_spec()) == RelUncertainty::new_spec(
            mean,
            uncertainty,
        ),
{
    lemma_abs_of_neg(uncertainty);
}

/// Construction establishes well-formedness: the stored error component is
/// its own magnitude and is never negative.
pub proof fn lemma_new_well_formed(mean: Scalar, uncertainty: Scalar)
    ensures
        AbsUncertainty::new_spec(mean, uncertainty).wf(),
        RelUncertainty::new_spec(mean, uncertainty).wf(),
        !AbsUncertainty::new_spec(mean, uncertainty).uncertainty_spec().is_negative_spec(),
        !RelUncertainty::new_spec(mean, uncertainty).uncertainty_spec().is_negative_spec(),
{
}

/// An exactly-known scalar is the zero-uncertainty member of the family:
/// seen as an uncertain value, its mean is itself and every reading of its
/// error component is exactly zero.
pub proof fn lemma_certain_scalar_adapter(x: Scalar)
    ensures
        x.mean_spec() == x,
        x.uncertainty_spec() == Scalar::zero_spec(),
        x.standard_deviation_spec() == Scalar::zero_spec(),
        x.coefficient_of_variation_spec() == Scalar::zero_spec(),
{
}

/// Scalar addition is commutative.
pub proof fn lemma_scalar_add_commutative(a: Scalar, b: Scalar)
    ensures
        a.add_spec(b) == b.add_spec(a),
{
}

/// Adding absolute uncertainties is commutative: swapping the operands
/// changes neither the mean nor the propagated standard deviation.
pub proof fn lemma_add_commutative_absolute(a: AbsUncertainty, b: AbsUncertainty)
    ensures
        a.add_spec(b) == b.add_spec(a),
{
    lemma_scalar_add_commutative(a.mean, b.mean);
    lemma_scalar_add_commutative(
        a.standard_deviation.pow_int_spec(2),
        b.standard_deviation.pow_int_spec(2),
    );
}

/// Adding relative uncertainties is commutative: swapping the operands
/// changes neither the mean nor the propagated coefficient of variation.
pub proof fn lemma_add_commutative_relative(a: RelUncertainty, b: RelUncertainty)
    ensures
        a.add_spec(b) == b.add_spec(a),
{
    lemma_scalar_add_commutative(a.mean, b.mean);
    lemma_scalar_add_commutative(
        a.coefficient_of_variation.pow_int_spec(2),
        b.coefficient_of_variation.pow_int_spec(2),
    );
}

/// Across the two representations the means of a sum still agree when the
/// operands swap places, though each result stays in its own left operand's
/// representation.
pub proof fn lemma_add_commutative_mixed(a: AbsUncertainty, b: RelUncertainty)
    ensures
        a.add_spec(b.to_absolute_spec()).mean_spec() == b.add_spec(
            a.to_relative_spec(),
        ).mean_spec(),
{
    lemma_scalar_add_commutative(a.mean, b.mean);
}

/// Dividing any scalar by the zero scalar yields an infinity or the
/// undefined sentinel, never a finite value and never a failure.
pub proof fn lemma_scalar_div_by_zero(a: Scalar)
    ensures
        a.div_spec(Scalar::zero_spec()) is PosInf || a.div_spec(Scalar::zero_spec()) is NegInf
            || a.div_spec(Scalar::zero_spec()) is NaN,
{
}

/// Dividing an absolute uncertainty by an operand with a zero mean yields a
/// result whose mean is an infinity or the undefined sentinel, never a
/// failure.
pub proof fn lemma_div_by_zero_mean_absolute(a: AbsUncertainty, b: AbsUncertainty)
    requires
        b.mean_spec() == Scalar::zero_spec(),
    ensures
        ({
            let mean = a.div_spec(b).mean_spec();
            mean is PosInf || mean is NegInf || mean is NaN
        }),
{
}

/// Dividing a relative uncertainty by an operand with a zero mean yields a
/// result whose mean is an infinity or the undefined sentinel, never a
/// failure.
pub proof fn lemma_div_by_zero_mean_relative(a: RelUncertainty, b: RelUncertainty)
    requires
        b.mean_spec() == Scalar::zero_spec(),
    ensures
        ({
            let mean = a.div_spec(b).mean_spec();
            mean is PosInf || mean is NegInf || mean is NaN
        }),
{
}

/// Converting an absolute uncertainty to the relative form and back
/// reproduces the value exactly whenever the mean is a non-zero finite
/// value and the coefficient of variation that the conversion computes is
/// exactly representable: the quotient of the scaled deviation by the mean
/// leaves no remainder and does not saturate. The mean itself is reproduced
/// by every round trip, since neither conversion touches it.
pub proof fn lemma_absolute_round_trip(m: i64, s: i64)
    requires
        m != 0,
        0 <= s,
        ((s as int) * (SCALE as int)) % iabs(m as int) == 0,
        ((s as int) * (SCALE as int)) / iabs(m as int) <= MAX_RAW as int,
    ensures
        ({
            let a = AbsUncertainty { mean: Scalar::Finite(m), standard_deviation: Scalar::Finite(s) };
            a.to_relative_spec().to_absolute_spec() == a
        }),
{
    let big = (s as int) * (SCALE as int);
    let mm = iabs(m as int);
    let c = big / mm;
    lemma_mul_nonnegative(s as int, SCALE as int);
    lemma_div_pos_is_pos(big, mm);
    lemma_fundamental_div_mod(big, mm);
    assert(big == mm * c);
    lemma_mul_is_commutative(mm, c);
    assert(c * mm == big);
    lemma_mul_is_commutative(s as int, SCALE as int);
    lemma_div_multiples_vanish(s as int, SCALE as int);
    assert(((SCALE as int) * (s as int)) / (SCALE as int) == s as int);
    assert((c * mm) / (SCALE as int) == s as int);
}

/// Every round trip from the absolute form through the relative one comes
/// back close: with a non-zero finite mean and a non-negative finite
/// deviation, and no saturation of the intermediate coefficient, the
/// reproduced deviation never exceeds the original and falls short of it by
/// less than one grid unit plus one grid unit per whole unit of the mean's
/// magnitude. In particular the shortfall vanishes whenever the quotient of
/// the scaled deviation by the mean is exact, and the mean itself is always
/// reproduced unchanged.
pub proof fn lemma_absolute_round_trip_error_bound(m: i64, s: i64)
    requires
        m != 0,
        0 <= s,
        ((s as int) * (SCALE as int)) / iabs(m as int) <= MAX_RAW as int,
    ensures
        ({
            let a = AbsUncertainty { mean: Scalar::Finite(m), standard_deviation: Scalar::Finite(s) };
            let back = a.to_relative_spec().to_absolute_spec();
            let scale = SCALE as int;
            let mm = iabs(m as int);
            let c = ((s as int) * scale) / mm;
            let t = (c * mm) / scale;
            back.mean == Scalar::Finite(m) && back.standard_deviation == Scalar::Finite(
                t as i64,
            ) && 0 <= t && t <= s as int && scale * ((s as int) - t) < mm + scale
        }),
{
    let scale = SCALE as int;
    let mm = iabs(m as int);
    let big = (s as int) * scale;
    let c = big / mm;
    lemma_mul_nonnegative(s as int, scale);
    lemma_div_pos_is_pos(big, mm);
    lemma_fundamental_div_mod(big, mm);
    let r1 = big % mm;
    assert(big == mm * c + r1);
    lemma_mul_is_commutative(mm, c);
    let small = c * mm;
    lemma_mul_nonnegative(c, mm);
    lemma_div_pos_is_pos(small, scale);
    let t = small / scale;
    lemma_fundamental_div_mod(small, scale);
    let r2 = small % scale;
    assert(small == scale * t + r2);
    // The reproduced deviation never exceeds the original one.
    lemma_div_is_ordered(small, big, scale);
    lemma_mul_is_commutative(s as int, scale);
    lemma_div_multiples_vanish(s as int, scale);
    assert(t <= s as int);
    // The two remainders together bound the shortfall.
    assert(scale * ((s as int) - t) == r1 + r2) by {
        assert(big - small == r1);
        assert(scale * (s as int) == scale * t + r2 + r1);
        vstd::arithmetic::mul::lemma_mul_is_distributive_sub(scale, s as int, t);
    }
    assert(r1 < mm) by {
        vstd::arithmetic::div_mod::lemma_mod_division_less_than_divisor(big, mm);
    }
    assert(r2 < scale) by {
        vstd::arithmetic::div_mod::lemma_mod_division_less_than_divisor(small, scale);
    }
}

/// Converting a relative uncertainty to the absolute form and back
/// reproduces the value exactly whenever the mean is a non-zero finite
/// value and the standard deviation that the conversion computes is exactly
/// representable: the product of the coefficient and the mean lands on the
/// fixed-point grid and does not saturate. The mean itself is reproduced by
/// every round trip, since neither conversion touches it.
pub proof fn lemma_relative_round_trip(m: i64, c: i64)
    requires
        m != 0,
        0 <= c,
        ((c as int) * iabs(m as int)) % (SCALE as int) == 0,
        ((c as int) * iabs(m as int)) / (SCALE as int) <= MAX_RAW as int,
    ensures
        ({
            let r = RelUncertainty {
                mean: Scalar::Finite(m),
                coefficient_of_variation: Scalar::Finite(c),
            };
            r.to_absolute_spec().to_relative_spec() == r
        }),
{
    let mm = iabs(m as int);
    let big = (c as int) * mm;
    let s = big / (SCALE as int);
    lemma_mul_nonnegative(c as int, mm);
    lemma_div_pos_is_pos(big, SCALE as int);
    lemma_fundamental_div_mod(big, SCALE as int);
    assert(big == (SCALE as int) * s);
    lemma_mul_is_commutative(SCALE as int, s);
    assert(s * (SCALE as int) == big);
    lemma_div_by_multiple(c as int, mm);
    assert(((c as int) * mm) / mm == c as int);
    assert((s * (SCALE as int)) / mm == c as int);
}

/// Scalar multiplication is commutative.
pub proof fn lemma_scalar_mul_commutative(a: Scalar, b: Scalar)
    ensures
        a.mul_spec(b) == b.mul_spec(a),
{
    match (a, b) {
        (Scalar::Finite(x), Scalar::Finite(y)) => {
            lemma_mul_is_commutative(iabs(x as int), iabs(y as int));
        },
        _ => {},
    }
}

/// Multiplying absolute uncertainties is commutative: swapping the operands
/// changes neither the mean nor the propagated standard deviation.
pub proof fn lemma_mul_commutative_absolute(a: AbsUncertainty, b: AbsUncertainty)
    ensures
        a.mul_spec(b) == b.mul_spec(a),
{
    lemma_scalar_mul_commutative(a.mean, b.mean);
    lemma_scalar_add_commutative(
        a.standard_deviation.pow_int_spec(2).mul_spec(b.mean.pow_int_spec(2)),
        b.standard_deviation.pow_int_spec(2).mul_spec(a.mean.pow_int_spec(2)),
    );
}

/// Multiplying relative uncertainties is commutative: swapping the operands
/// changes neither the mean nor the propagated coefficient of variation.
pub proof fn lemma_mul_commutative_relative(a: RelUncertainty, b: RelUncertainty)
    ensures
        a.mul_spec(b) == b.mul_spec(a),
{
    lemma_scalar_mul_commutative(a.mean, b.mean);
    lemma_scalar_add_commutative(
        a.coefficient_of_variation.pow_int_spec(2).mul_spec(b.mean.pow_int_spec(2)),
        b.coefficient_of_variation.pow_int_spec(2).mul_spec(a.mean.pow_int_spec(2)),
    );
}

/// The two representations are views of one quantity: converting in either
/// direction, or embedding an exactly-known scalar, never changes the mean.
pub proof fn lemma_conversions_preserve_mean(a: AbsUncertainty, r: RelUncertainty, x: Scalar)
    ensures
        a.to_relative_spec().mean_spec() == a.mean_spec(),
        r.to_absolute_spec().mean_spec() == r.mean_spec(),
        x.to_absolute_spec().mean_spec() == x,
        x.to_relative_spec().mean_spec() == x,
{
}

/// Every operator of the propagation engine yields a well-formed result:
/// the error component of a sum, difference, product, quotient or power is
/// again stored as a magnitude.
pub proof fn lemma_operations_well_formed(a: AbsUncertainty, b: AbsUncertainty, n: int)
    ensures
        a.add_spec(b).wf(),
        a.sub_spec(b).wf(),
        a.mul_spec(b).wf(),
        a.div_spec(b).wf(),
        a.powi_spec(n).wf(),
{
}

/// Every operator of the propagation engine yields a well-formed result in
/// the relative representation as well.
pub proof fn lemma_operations_well_formed_relative(a: RelUncertainty, b: RelUncertainty, n: int)
    ensures
        a.add_spec(b).wf(),
        a.sub_spec(b).wf(),
        a.mul_spec(b).wf(),
        a.div_spec(b).wf(),
        a.powi_spec(n).wf(),
{
}

} // verus!
