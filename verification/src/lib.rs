//! Decision logic for a finite floating-point value type.
//!
//! A finite float wrapper excludes NaN, collapses signed zero to a single
//! canonical representation, and saturates instead of producing infinities,
//! so that floating-point values can serve as total-order keys, hash-map
//! keys, and arithmetic operands without the usual IEEE-754 hazards.
//!
//! This crate holds the verified core of that design: every decision the
//! wrapper makes is a pure function over plain values, stated and proved
//! here. A value's floating-point classification is modelled by
//! [`classify::FloatClass`], the wrapper's choice of what to store by
//! [`classify::Resolution`], and the sign of a true mathematical value that
//! rounded to zero by `core::cmp::Ordering`. The surrounding layer that
//! carries actual primitive floats only classifies its input, asks this
//! crate what to store, and materialises the answer.

pub mod classify;
pub mod error;
pub mod sign;

pub use classify::FloatClass;
pub use classify::Resolution;
pub use error::NanError;
pub use sign::multiply_signs;
pub use sign::parse_sign_of_tiny_float;
