//! Numeric quantities with an associated statistical uncertainty.
//!
//! The crate provides two concrete representations of an uncertain quantity,
//! both characterized by a central value and an error component. For the
//! [`AbsUncertainty`] type the error is the standard deviation, expressed in
//! the same unit as the value; for the [`RelUncertainty`] type it is the
//! coefficient of variation, the ratio of the standard deviation to the mean.
//! The [`Uncertainty`] trait is the capability both share, and the bare
//! [`Scalar`] implements it too, as an exactly-known quantity with zero
//! uncertainty, so exact and uncertain values mix in the same expressions.
//!
//! Arithmetic on uncertain values propagates the error components through
//! first-order variance propagation, with both operands treated as
//! statistically independent. Every quantity is built from the fixed-point
//! [`Scalar`], whose out-of-range and undefined results saturate to signed
//! infinities or a not-a-number sentinel instead of failing, and the
//! contracts of this crate pin down the result of every operation exactly.

/// The fixed-point scalar that quantities are built from.
mod scalar;

/// The capability that every uncertain-value representation satisfies.
mod uncertainty;

/// Quantities whose error is a standard deviation.
mod absolute;

/// Quantities whose error is a coefficient of variation.
mod relative;

/// The exactly-known scalar as a degenerate uncertain value.
mod certain;

/// The propagation engine: the binary operators on uncertain values.
mod ops;

/// The laws that the representations and their arithmetic obey.
mod laws;

pub use absolute::AbsUncertainty;
pub use relative::RelUncertainty;
pub use scalar::Scalar;
pub use scalar::MAX_RAW;
pub use scalar::SCALE;
pub use uncertainty::Uncertainty;

