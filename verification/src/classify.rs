//! Mapping a classified floating-point value onto the representable domain.
//!
//! The finite-float wrapper never stores NaN, an infinity, a subnormal
//! magnitude, or a negative zero. Everything it does store is decided here:
//! construction classifies its input and this module says, per
//! classification, whether to fail, which named extreme to saturate to,
//! whether to store the canonical zero, or whether to keep the value
//! unchanged.

use crate::sign::multiply_signs;
use crate::sign::parse_sign_of_tiny_float;
use crate::sign::sign_of_text;
use crate::sign::sign_product;
use core::cmp::Ordering;
use vstd::pervasive::unreached;
use vstd::prelude::*;

verus! {

/// What construction reads of a primitive floating-point value: its IEEE-754
/// classification, with the sign wherever the classification alone does not
/// settle what to store. An exact zero carries no sign: positive and negative
/// zero are deliberately indistinguishable here, which is what collapses them
/// to one canonical representation.
#[derive(Clone, Copy, Debug, PartialEq, Eq, Structural)]
pub enum FloatClass {
    /// Not a number.
    Nan,
    /// Positive infinity.
    PositiveInfinite,
    /// Negative infinity.
    NegativeInfinite,
    /// An exact zero, of either sign.
    Zero,
    /// A positive subnormal magnitude.
    PositiveSubnormal,
    /// A negative subnormal magnitude.
    NegativeSubnormal,
    /// A normal finite value.
    Normal,
}

/// What construction decides to store: one of the named extremes of the
/// underlying width, the canonical zero, or the classified value itself.
#[derive(Clone, Copy, Debug, PartialEq, Eq, Structural)]
pub enum Resolution {
    /// The most positive finite value.
    Max,
    /// The most negative finite value.
    Min,
    /// The smallest positive normal magnitude.
    MinPositive,
    /// The negative value closest to zero, the negation of `MinPositive`.
    MaxNegative,
    /// The canonical (positive) zero.
    CanonicalZero,
    /// The classified value itself, stored unchanged.
    Unchanged,
}

/// The whole construction discipline: NaN fails, infinities saturate to the
/// finite extremes, an exact zero consults the sign the true mathematical
/// value had before rounding, subnormal magnitudes saturate to the nearest
/// normal extreme of their sign, and normal values are kept unchanged.
pub open spec fn construct_spec(class: FloatClass, underflow_sign: Ordering) -> Option<Resolution> {
    match class {
        FloatClass::Nan => None,
        FloatClass::PositiveInfinite => Some(Resolution::Max),
        FloatClass::NegativeInfinite => Some(Resolution::Min),
        FloatClass::Zero => Some(
            match underflow_sign {
                Ordering::Less => Resolution::MaxNegative,
                Ordering::Equal => Resolution::CanonicalZero,
                Ordering::Greater => Resolution::MinPositive,
            },
        ),
        FloatClass::PositiveSubnormal => Some(Resolution::MinPositive),
        FloatClass::NegativeSubnormal => Some(Resolution::MaxNegative),
        FloatClass::Normal => Some(Resolution::Unchanged),
    }
}

/// Maps a classified value that is known not to be NaN onto the domain.
/// `underflow_sign` is consulted only when the value classifies as exact
/// zero, and reports how the true (unrounded) mathematical value compares to
/// zero.
pub fn resolve(class: FloatClass, underflow_sign: Ordering) -> (r: Resolution)
    requires
        !(class is Nan),
    ensures
        construct_spec(class, underflow_sign) == Some(r),
{
    match class {
        FloatClass::Nan => unreached(),
        FloatClass::PositiveInfinite => Resolution::Max,
        FloatClass::NegativeInfinite => Resolution::Min,
        FloatClass::Zero => match underflow_sign {
            Ordering::Less => Resolution::MaxNegative,
            Ordering::Equal => Resolution::CanonicalZero,
            Ordering::Greater => Resolution::MinPositive,
        },
        FloatClass::PositiveSubnormal => Resolution::MinPositive,
        FloatClass::NegativeSubnormal => Resolution::MaxNegative,
        FloatClass::Normal => Resolution::Unchanged,
    }
}

/// The decision behind the fallible constructor: no arithmetic context
/// supplies sign information, so a raw zero of either sign becomes the
/// canonical zero. Fails exactly on NaN.
pub fn resolve_new(class: FloatClass) -> (r: Option<Resolution>)
    ensures
        r == construct_spec(class, Ordering::Equal),
        r is None <==> class is Nan,
{
    match class {
        FloatClass::Nan => None,
        _ => Some(resolve(class, Ordering::Equal)),
    }
}

/// The decision behind parsing: `class` classifies what the primitive parser
/// made of `text`. Fails exactly when the text denoted NaN; when the parsed
/// value is exact zero, the sign the text truly denoted is recovered from the
/// text itself, so a literal that underflowed to primitive zero still
/// saturates to the signed extreme nearest zero.
pub fn resolve_parsed(class: FloatClass, text: &str) -> (r: Option<Resolution>)
    ensures
        r == construct_spec(class, sign_of_text(text@)),
        r is None <==> class is Nan,
{
    match class {
        FloatClass::Nan => None,
        FloatClass::Zero => Some(resolve(class, parse_sign_of_tiny_float(text))),
        _ => Some(resolve(class, Ordering::Equal)),
    }
}

/// The decision behind multiplication: a product of two finite values is
/// never NaN, and when its magnitude underflows to exact zero the sign of
/// the true product is the product of the operand signs.
pub fn resolve_product(class: FloatClass, lhs_sign: Ordering, rhs_sign: Ordering) -> (r: Resolution)
    requires
        !(class is Nan),
    ensures
        construct_spec(class, sign_product(lhs_sign, rhs_sign)) == Some(r),
{
    let underflow_sign = multiply_signs(lhs_sign, rhs_sign);
    resolve(class, underflow_sign)
}

/// Construction stores the canonical zero exactly when the value classifies
/// as exact zero and the true mathematical value is zero too. In particular
/// an arithmetic cancellation, whose true result really is zero, always
/// lands on the canonical zero, and nothing else ever does.
pub proof fn lemma_canonical_zero_unique(class: FloatClass, underflow_sign: Ordering)
    ensures
        construct_spec(class, underflow_sign) == Some(Resolution::CanonicalZero) <==> class
            is Zero && underflow_sign == Ordering::Equal,
{
}

/// A product whose magnitude underflows to primitive zero saturates to
/// `MinPositive` when the operand signs agree and to `MaxNegative` when they
/// disagree — never to the canonical zero.
pub proof fn lemma_product_underflow_keeps_sign(lhs_sign: Ordering, rhs_sign: Ordering)
    requires
        lhs_sign != Ordering::Equal,
        rhs_sign != Ordering::Equal,
    ensures
        construct_spec(FloatClass::Zero, sign_product(lhs_sign, rhs_sign)) == Some(
            if lhs_sign == rhs_sign {
                Resolution::MinPositive
            } else {
                Resolution::MaxNegative
            },
        ),
{
}

} // verus!
