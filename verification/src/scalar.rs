//! The numeric scalar that every uncertain quantity is built from.
//!
//! A [`Scalar`] is a fixed-point number: a finite value carries a raw `i64`
//! count of units of `1 / SCALE`, so the finite scalar with raw value `v`
//! stands for the number `v / SCALE`. Results whose magnitude exceeds the
//! largest representable raw value saturate to a signed infinity, and
//! undefined operations (zero divided by zero, zero times infinity, the
//! square root of a negative value) yield a not-a-number sentinel. Both
//! sentinels propagate silently through further arithmetic, so no operation
//! of this module ever fails: callers that need a well-behaved result are
//! expected to test finiteness afterwards.

use vstd::prelude::*;

verus! {

/// Number of raw units in one whole unit: a finite scalar with raw value `v`
/// represents the number `v / SCALE`.
pub const SCALE: i64 = 1_000_000_000;

/// Largest raw magnitude a finite scalar can carry.
pub const MAX_RAW: i64 = i64::MAX;

/// A fixed-point number together with the three sentinel values that
/// out-of-range and undefined results collapse to.
#[derive(Clone, Copy, Debug, PartialEq, Eq, Structural)]
pub enum Scalar {
    /// A finite value; the payload is the raw count of `1 / SCALE` units.
    Finite(i64),
    /// The overflow sentinel for results above the representable range.
    PosInf,
    /// The overflow sentinel for results below the representable range.
    NegInf,
    /// The sentinel for undefined results.
    NaN,
}

/// Magnitude of a mathematical integer.
pub open spec fn iabs(v: int) -> int {
    if v < 0 {
        -v
    } else {
        v
    }
}

/// The signed infinity with the given sign.
pub open spec fn signed_inf(negative: bool) -> Scalar {
    if negative {
        Scalar::NegInf
    } else {
        Scalar::PosInf
    }
}

/// Maps a mathematical integer onto a raw value, saturating to a signed
/// infinity outside the representable range.
pub open spec fn clamp_spec(v: int) -> Scalar {
    if v > MAX_RAW as int {
        Scalar::PosInf
    } else if v < -(MAX_RAW as int) {
        Scalar::NegInf
    } else {
        Scalar::Finite(v as i64)
    }
}

impl Scalar {
    /// The scalar zero.
    pub open spec fn zero_spec() -> Scalar {
        Scalar::Finite(0)
    }

    /// The scalar one.
    pub open spec fn one_spec() -> Scalar {
        Scalar::Finite(SCALE)
    }

    /// True of the finite value zero alone; in particular false of the
    /// not-a-number sentinel.
    pub open spec fn is_zero_spec(self) -> bool {
        self == Scalar::Finite(0i64)
    }

    /// True of a value that an infinite or undefined result would order below
    /// zero: finite negatives and negative infinity.
    pub open spec fn is_negative_spec(self) -> bool {
        match self {
            Scalar::Finite(v) => v < 0,
            Scalar::PosInf => false,
            Scalar::NegInf => true,
            Scalar::NaN => false,
        }
    }

    /// What addition returns: the exact sum of finite operands, saturated to
    /// the representable range; infinities of opposite sign annihilate to
    /// not-a-number; not-a-number propagates.
    pub open spec fn add_spec(self, other: Scalar) -> Scalar {
        match (self, other) {
            (Scalar::NaN, _) => Scalar::NaN,
            (_, Scalar::NaN) => Scalar::NaN,
            (Scalar::PosInf, Scalar::NegInf) => Scalar::NaN,
            (Scalar::NegInf, Scalar::PosInf) => Scalar::NaN,
            (Scalar::PosInf, _) => Scalar::PosInf,
            (_, Scalar::PosInf) => Scalar::PosInf,
            (Scalar::NegInf, _) => Scalar::NegInf,
            (_, Scalar::NegInf) => Scalar::NegInf,
            (Scalar::Finite(x), Scalar::Finite(y)) => clamp_spec(x + y),
        }
    }

    /// What subtraction returns, mirroring [`Scalar::add_spec`] with the
    /// second operand negated: infinities of equal sign annihilate.
    pub open spec fn sub_spec(self, other: Scalar) -> Scalar {
        match (self, other) {
            (Scalar::NaN, _) => Scalar::NaN,
            (_, Scalar::NaN) => Scalar::NaN,
            (Scalar::PosInf, Scalar::PosInf) => Scalar::NaN,
            (Scalar::NegInf, Scalar::NegInf) => Scalar::NaN,
            (Scalar::PosInf, _) => Scalar::PosInf,
            (Scalar::NegInf, _) => Scalar::NegInf,
            (_, Scalar::PosInf) => Scalar::NegInf,
            (_, Scalar::NegInf) => Scalar::PosInf,
            (Scalar::Finite(x), Scalar::Finite(y)) => clamp_spec(x - y),
        }
    }

    /// What negation returns. The raw value at the lower edge of the range
    /// has no representable opposite and saturates to positive infinity.
    pub open spec fn neg_spec(self) -> Scalar {
        match self {
            Scalar::NaN => Scalar::NaN,
            Scalar::PosInf => Scalar::NegInf,
            Scalar::NegInf => Scalar::PosInf,
            Scalar::Finite(v) => clamp_spec(-v),
        }
    }

    /// What the absolute value returns: the magnitude, with both infinities
    /// mapped to positive infinity.
    pub open spec fn abs_spec(self) -> Scalar {
        match self {
            Scalar::NaN => Scalar::NaN,
            Scalar::PosInf => Scalar::PosInf,
            Scalar::NegInf => Scalar::PosInf,
            Scalar::Finite(v) => clamp_spec(iabs(v as int)),
        }
    }

    /// What multiplication returns: the exact product of finite operands,
    /// rounded toward zero to the fixed-point grid and saturated; zero times
    /// an infinity is undefined; not-a-number propagates.
    pub open spec fn mul_spec(self, other: Scalar) -> Scalar {
        match (self, other) {
            (Scalar::NaN, _) => Scalar::NaN,
            (_, Scalar::NaN) => Scalar::NaN,
            (Scalar::Finite(x), Scalar::Finite(y)) => {
                let m = (iabs(x as int) * iabs(y as int)) / (SCALE as int);
                let negative = (x < 0) != (y < 0);
                if m > MAX_RAW as int {
                    signed_inf(negative)
                } else if negative {
                    Scalar::Finite((-m) as i64)
                } else {
                    Scalar::Finite(m as i64)
                }
            },
            _ => {
                if self.is_zero_spec() || other.is_zero_spec() {
                    Scalar::NaN
                } else {
                    signed_inf(self.is_negative_spec() != other.is_negative_spec())
                }
            },
        }
    }

    /// What division returns: the exact quotient of finite operands, rounded
    /// toward zero to the fixed-point grid and saturated. A finite value over
    /// zero is a signed infinity, zero over zero and an infinity over an
    /// infinity are undefined, and a finite value over an infinity is zero.
    pub open spec fn div_spec(self, other: Scalar) -> Scalar {
        match (self, other) {
            (Scalar::NaN, _) => Scalar::NaN,
            (_, Scalar::NaN) => Scalar::NaN,
            (Scalar::Finite(x), Scalar::Finite(y)) => {
                if y == 0 {
                    if x == 0 {
                        Scalar::NaN
                    } else {
                        signed_inf(x < 0)
                    }
                } else {
                    let m = (iabs(x as int) * (SCALE as int)) / iabs(y as int);
                    let negative = (x < 0) != (y < 0);
                    if m > MAX_RAW as int {
                        signed_inf(negative)
                    } else if negative {
                        Scalar::Finite((-m) as i64)
                    } else {
                        Scalar::Finite(m as i64)
                    }
                }
            },
            (Scalar::Finite(_), _) => Scalar::Finite(0),
            (_, Scalar::Finite(y)) => signed_inf(self.is_negative_spec() != (y < 0)),
            _ => Scalar::NaN,
        }
    }

    /// The non-negative square root of a mathematical integer, rounded down.
    pub open spec fn sqrt_nat(n: nat) -> nat
        decreases n,
    {
        if n == 0 {
            0
        } else {
            let r = Self::sqrt_nat((n - 1) as nat);
            if (r + 1) * (r + 1) <= n {
                r + 1
            } else {
                r
            }
        }
    }

    /// What the square root returns: the rounded-down root of a non-negative
    /// finite value; negative values and negative infinity are undefined.
    pub open spec fn sqrt_spec(self) -> Scalar {
        match self {
            Scalar::NaN => Scalar::NaN,
            Scalar::PosInf => Scalar::PosInf,
            Scalar::NegInf => Scalar::NaN,
            Scalar::Finite(v) => {
                if v < 0 {
                    Scalar::NaN
                } else {
                    Scalar::Finite(Self::sqrt_nat((v * (SCALE as int)) as nat) as i64)
                }
            },
        }
    }

    /// What raising to a non-negative power returns: the empty product is
    /// one, and each further step multiplies by the base once.
    pub open spec fn pow_nat_spec(self, e: nat) -> Scalar
        decreases e,
    {
        if e == 0 {
            Scalar::Finite(SCALE)
        } else {
            self.mul_spec(self.pow_nat_spec((e - 1) as nat))
        }
    }

    /// What raising to an arbitrary integer power returns: a negative
    /// exponent is the reciprocal of the positive power.
    pub open spec fn pow_int_spec(self, n: int) -> Scalar {
        if n >= 0 {
            self.pow_nat_spec(n as nat)
        } else {
            Scalar::Finite(SCALE).div_spec(self.pow_nat_spec((-n) as nat))
        }
    }

    /// What building a scalar from a whole number returns.
    pub open spec fn from_int_spec(v: int) -> Scalar {
        clamp_spec(v * (SCALE as int))
    }
}

impl Scalar {
    /// The scalar zero.
    pub fn zero() -> (r: Scalar)
        ensures
            r == Scalar::zero_spec(),
    {
        Scalar::Finite(0)
    }

    /// The scalar one.
    pub fn one() -> (r: Scalar)
        ensures
            r == Scalar::one_spec(),
    {
        Scalar::Finite(SCALE)
    }

    /// Builds the scalar that stands for the given whole number, saturating
    /// outside the representable range.
    pub fn from_int(v: i64) -> (r: Scalar)
        ensures
            r == Scalar::from_int_spec(v as int),
    {
        Scalar::clamp128((v as i128) * (SCALE as i128))
    }

    /// Builds the finite scalar with the given raw value, which stands for
    /// the number `v / SCALE`.
    pub fn from_raw(v: i64) -> (r: Scalar)
        ensures
            r == Scalar::Finite(v),
    {
        Scalar::Finite(v)
    }

    /// True of the finite value zero alone.
    pub fn is_zero(self) -> (r: bool)
        ensures
            r == self.is_zero_spec(),
    {
        match self {
            Scalar::Finite(v) => v == 0,
            _ => false,
        }
    }

    /// True of finite negatives and negative infinity.
    pub fn is_negative(self) -> (r: bool)
        ensures
            r == self.is_negative_spec(),
    {
        match self {
            Scalar::Finite(v) => v < 0,
            Scalar::NegInf => true,
            _ => false,
        }
    }

    /// True of every value but the infinities and the not-a-number sentinel.
    pub fn is_finite(self) -> (r: bool)
        ensures
            r == (self is Finite),
    {
        match self {
            Scalar::Finite(_) => true,
            _ => false,
        }
    }

    /// True of the two infinities.
    pub fn is_infinite(self) -> (r: bool)
        ensures
            r == (self is PosInf || self is NegInf),
    {
        match self {
            Scalar::PosInf => true,
            Scalar::NegInf => true,
            _ => false,
        }
    }

    /// True of the not-a-number sentinel.
    pub fn is_nan(self) -> (r: bool)
        ensures
            r == (self is NaN),
    {
        match self {
            Scalar::NaN => true,
            _ => false,
        }
    }

    /// Maps a wide intermediate result onto a scalar, saturating outside the
    /// representable range.
    fn clamp128(v: i128) -> (r: Scalar)
        ensures
            r == clamp_spec(v as int),
    {
        if v > MAX_RAW as i128 {
            Scalar::PosInf
        } else if v < -(MAX_RAW as i128) {
            Scalar::NegInf
        } else {
            Scalar::Finite(v as i64)
        }
    }

    /// Splits a raw value into its sign and its magnitude.
    fn split(v: i64) -> (r: (bool, u64))
        ensures
            r.0 == (v < 0),
            r.1 as int == iabs(v as int),
    {
        if v < 0 {
            (true, (-(v as i128)) as u64)
        } else {
            (false, v as u64)
        }
    }

    /// Applies a sign to an unsigned intermediate result, saturating to the
    /// matching infinity outside the representable range.
    fn signed_clamp(m: u128, negative: bool) -> (r: Scalar)
        ensures
            r == (if m as int > MAX_RAW as int {
                signed_inf(negative)
            } else if negative {
                Scalar::Finite((-(m as int)) as i64)
            } else {
                Scalar::Finite(m as i64)
            }),
    {
        if m > MAX_RAW as u128 {
            if negative {
                Scalar::NegInf
            } else {
                Scalar::PosInf
            }
        } else if negative {
            Scalar::Finite(-(m as i64))
        } else {
            Scalar::Finite(m as i64)
        }
    }

    /// The sum, as [`Scalar::add_spec`] describes it.
    pub fn add(self, other: Scalar) -> (r: Scalar)
        ensures
            r == self.add_spec(other),
    {
        match (self, other) {
            (Scalar::NaN, _) => Scalar::NaN,
            (_, Scalar::NaN) => Scalar::NaN,
            (Scalar::PosInf, Scalar::NegInf) => Scalar::NaN,
            (Scalar::NegInf, Scalar::PosInf) => Scalar::NaN,
            (Scalar::PosInf, _) => Scalar::PosInf,
            (_, Scalar::PosInf) => Scalar::PosInf,
            (Scalar::NegInf, _) => Scalar::NegInf,
            (_, Scalar::NegInf) => Scalar::NegInf,
            (Scalar::Finite(x), Scalar::Finite(y)) => Scalar::clamp128(
                x as i128 + y as i128,
            ),
        }
    }

    /// The difference, as [`Scalar::sub_spec`] describes it.
    pub fn sub(self, other: Scalar) -> (r: Scalar)
        ensures
            r == self.sub_spec(other),
    {
        match (self, other) {
            (Scalar::NaN, _) => Scalar::NaN,
            (_, Scalar::NaN) => Scalar::NaN,
            (Scalar::PosInf, Scalar::PosInf) => Scalar::NaN,
            (Scalar::NegInf, Scalar::NegInf) => Scalar::NaN,
            (Scalar::PosInf, _) => Scalar::PosInf,
            (Scalar::NegInf, _) => Scalar::NegInf,
            (_, Scalar::PosInf) => Scalar::NegInf,
            (_, Scalar::NegInf) => Scalar::PosInf,
            (Scalar::Finite(x), Scalar::Finite(y)) => Scalar::clamp128(
                x as i128 - y as i128,
            ),
        }
    }

    /// The opposite value, as [`Scalar::neg_spec`] describes it.
    pub fn neg(self) -> (r: Scalar)
        ensures
            r == self.neg_spec(),
    {
        match self {
            Scalar::NaN => Scalar::NaN,
            Scalar::PosInf => Scalar::NegInf,
            Scalar::NegInf => Scalar::PosInf,
            Scalar::Finite(v) => Scalar::clamp128(-(v as i128)),
        }
    }

    /// The magnitude, as [`Scalar::abs_spec`] describes it.
    pub fn abs(self) -> (r: Scalar)
        ensures
            r == self.abs_spec(),
    {
        match self {
            Scalar::NaN => Scalar::NaN,
            Scalar::PosInf => Scalar::PosInf,
            Scalar::NegInf => Scalar::PosInf,
            Scalar::Finite(v) => {
                if v < 0 {
                    Scalar::clamp128(-(v as i128))
                } else {
                    Scalar::Finite(v)
                }
            },
        }
    }

    /// The product, as [`Scalar::mul_spec`] describes it.
    pub fn mul(self, other: Scalar) -> (r: Scalar)
        ensures
            r == self.mul_spec(other),
    {
        match (self, other) {
            (Scalar::NaN, _) => Scalar::NaN,
            (_, Scalar::NaN) => Scalar::NaN,
            (Scalar::Finite(x), Scalar::Finite(y)) => {
                let (nx, mx) = Scalar::split(x);
                let (ny, my) = Scalar::split(y);
                proof {
                    vstd::arithmetic::mul::lemma_mul_upper_bound(
                        mx as int,
                        0x8000_0000_0000_0000,
                        my as int,
                        0x8000_0000_0000_0000,
                    );
                }
                let p: u128 = (mx as u128) * (my as u128);
                let q: u128 = p / (SCALE as u128);
                Scalar::signed_clamp(q, nx != ny)
            },
            _ => {
                if self.is_zero() || other.is_zero() {
                    Scalar::NaN
                } else if self.is_negative() != other.is_negative() {
                    Scalar::NegInf
                } else {
                    Scalar::PosInf
                }
            },
        }
    }

    /// The quotient, as [`Scalar::div_spec`] describes it.
    pub fn div(self, other: Scalar) -> (r: Scalar)
        ensures
            r == self.div_spec(other),
    {
        match (self, other) {
            (Scalar::NaN, _) => Scalar::NaN,
            (_, Scalar::NaN) => Scalar::NaN,
            (Scalar::Finite(x), Scalar::Finite(y)) => {
                if y == 0 {
                    if x == 0 {
                        Scalar::NaN
                    } else if x < 0 {
                        Scalar::NegInf
                    } else {
                        Scalar::PosInf
                    }
                } else {
                    let (nx, mx) = Scalar::split(x);
                    let (ny, my) = Scalar::split(y);
                    let p: u128 = (mx as u128) * (SCALE as u128);
                    let q: u128 = p / (my as u128);
                    Scalar::signed_clamp(q, nx != ny)
                }
            },
            (Scalar::Finite(_), _) => Scalar::Finite(0),
            (_, Scalar::Finite(y)) => {
                if self.is_negative() != (y < 0) {
                    Scalar::NegInf
                } else {
                    Scalar::PosInf
                }
            },
            _ => Scalar::NaN,
        }
    }

    /// The square root, as [`Scalar::sqrt_spec`] describes it.
    pub fn sqrt(self) -> (r: Scalar)
        ensures
            r == self.sqrt_spec(),
    {
        match self {
            Scalar::NaN => Scalar::NaN,
            Scalar::PosInf => Scalar::PosInf,
            Scalar::NegInf => Scalar::NaN,
            Scalar::Finite(v) => {
                if v < 0 {
                    Scalar::NaN
                } else {
                    let x: u128 = (v as u128) * (SCALE as u128);
                    let root = Scalar::isqrt(x);
                    proof {
                        Scalar::lemma_sqrt_nat_unique(x as nat, root as nat);
                    }
                    Scalar::Finite(root as i64)
                }
            },
        }
    }

    /// The rounded-down square root of a wide unsigned intermediate.
    fn isqrt(x: u128) -> (r: u64)
        requires
            x < 19807040628566084398385987584,  // every product of a raw value and SCALE is below this square
        ensures
            (r as nat) * (r as nat) <= x as nat,
            (x as nat) < ((r as nat) + 1) * ((r as nat) + 1),
            r < 140737488355328u64,
    {
        let mut lo: u128 = 0;
        let mut hi: u128 = 140737488355328;  // its square is the bound on x
        while lo + 1 < hi
            invariant
                (lo as nat) * (lo as nat) <= x as nat,
                (x as nat) < (hi as nat) * (hi as nat),
                lo < hi,
                hi <= 140737488355328u128,
            decreases hi - lo,
        {
            let mid = lo + (hi - lo) / 2;
            proof {
                vstd::arithmetic::mul::lemma_mul_upper_bound(
                    mid as int,
                    140737488355328,
                    mid as int,
                    140737488355328,
                );
            }
            if mid * mid <= x {
                lo = mid;
            } else {
                hi = mid;
            }
        }
        lo as u64
    }

    /// The rounded-down square root of a mathematical integer is the one
    /// value whose square is not above it while the next square is beyond it.
    proof fn lemma_sqrt_nat_bounds(n: nat)
        ensures
            Self::sqrt_nat(n) * Self::sqrt_nat(n) <= n,
            n < (Self::sqrt_nat(n) + 1) * (Self::sqrt_nat(n) + 1),
        decreases n,
    {
        let s = Self::sqrt_nat(n);
        if n == 0 {
            assert(s == 0);
            assert((s + 1) * (s + 1) == 1) by (nonlinear_arith)
                requires
                    s == 0,
            ;
        } else {
            Self::lemma_sqrt_nat_bounds((n - 1) as nat);
            let r0 = Self::sqrt_nat((n - 1) as nat);
            if (r0 + 1) * (r0 + 1) <= n {
                assert(s == r0 + 1);
                assert(n == (r0 + 1) * (r0 + 1));
                assert((s + 1) * (s + 1) > s * s) by (nonlinear_arith);
            } else {
                assert(s == r0);
                assert(s * s <= n - 1 < n);
            }
        }
    }

    /// Any value whose square brackets `n` as the bounds above describe is
    /// the rounded-down square root of `n`.
    proof fn lemma_sqrt_nat_unique(n: nat, r: nat)
        requires
            r * r <= n,
            n < (r + 1) * (r + 1),
        ensures
            r == Self::sqrt_nat(n),
    {
        Self::lemma_sqrt_nat_bounds(n);
        let s = Self::sqrt_nat(n);
        if r < s {
            assert((r + 1) * (r + 1) <= s * s) by (nonlinear_arith)
                requires
                    r < s,
            ;
            assert(false);
        } else if s < r {
            assert((s + 1) * (s + 1) <= r * r) by (nonlinear_arith)
                requires
                    s < r,
            ;
            assert(false);
        }
    }

    /// The power with a non-negative exponent, as [`Scalar::pow_nat_spec`]
    /// describes it.
    fn pow_nat(self, e: u64) -> (r: Scalar)
        ensures
            r == self.pow_nat_spec(e as nat),
    {
        let mut acc = Scalar::Finite(SCALE);
        let mut i: u64 = 0;
        while i < e
            invariant
                acc == self.pow_nat_spec(i as nat),
                i <= e,
            decreases e - i,
        {
            proof {
                assert(self.pow_nat_spec((i + 1) as nat) == self.mul_spec(
                    self.pow_nat_spec(i as nat),
                ));
            }
            acc = self.mul(acc);
            i = i + 1;
        }
        acc
    }

    /// The power with an arbitrary integer exponent, as
    /// [`Scalar::pow_int_spec`] describes it.
    pub fn pow_int(self, n: i64) -> (r: Scalar)
        ensures
            r == self.pow_int_spec(n as int),
    {
        if n >= 0 {
            self.pow_nat(n as u64)
        } else {
            let p = self.pow_nat((-(n as i128)) as u64);
            Scalar::one().div(p)
        }
    }
}

} // verus!
