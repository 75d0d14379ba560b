//! Signs of true mathematical values, and how text reveals them.
//!
//! A sign is represented as a `core::cmp::Ordering` describing how the true
//! value compares to zero: `Less` for negative, `Equal` for exactly zero,
//! `Greater` for positive.

use core::cmp::Ordering;
use vstd::prelude::*;
use vstd::string::StrSliceExecFns;

verus! {

/// The product of two signs: negative times negative is positive, anything
/// times zero is zero, and so on.
pub open spec fn sign_product(lhs: Ordering, rhs: Ordering) -> Ordering {
    match lhs {
        Ordering::Less => match rhs {
            Ordering::Less => Ordering::Greater,
            Ordering::Equal => Ordering::Equal,
            Ordering::Greater => Ordering::Less,
        },
        Ordering::Equal => Ordering::Equal,
        Ordering::Greater => rhs,
    }
}

/// Multiplies two signs, so that the sign of a product of two values can be
/// derived from the signs of its operands.
pub fn multiply_signs(lhs: Ordering, rhs: Ordering) -> (r: Ordering)
    ensures
        r == sign_product(lhs, rhs),
{
    match lhs {
        Ordering::Less => match rhs {
            Ordering::Less => Ordering::Greater,
            Ordering::Equal => Ordering::Equal,
            Ordering::Greater => Ordering::Less,
        },
        Ordering::Equal => Ordering::Equal,
        Ordering::Greater => rhs,
    }
}

/// A digit that makes the scanned significand nonzero.
pub open spec fn is_nonzero_digit(c: char) -> bool {
    '1' <= c && c <= '9'
}

/// The sign-recovery scan over the remaining input, carrying whether a minus
/// sign has already been seen. It walks the prefix matching
/// `[+-]? digit* ('.' digit*)?`: a minus sign sets the running sign to
/// negative, a plus sign, a zero digit or the decimal point is skipped, the
/// first nonzero digit settles the scan with the running sign, and the end of
/// the prefix (any other character, or the end of the input) settles it with
/// zero.
pub open spec fn scan_sign(s: Seq<char>, negative: bool) -> Ordering
    decreases s.len(),
{
    if s.len() == 0 {
        Ordering::Equal
    } else if s[0] == '-' {
        scan_sign(s.skip(1), true)
    } else if s[0] == '+' || s[0] == '0' || s[0] == '.' {
        scan_sign(s.skip(1), negative)
    } else if is_nonzero_digit(s[0]) {
        if negative {
            Ordering::Less
        } else {
            Ordering::Greater
        }
    } else {
        Ordering::Equal
    }
}

/// The sign of the true mathematical value a numeric literal denotes, judged
/// from its significand alone. The exponent is deliberately ignored: a
/// literal whose significant digits are all zero denotes exactly zero no
/// matter the exponent, while one with a nonzero significant digit denotes a
/// true nonzero value however far the exponent pushes it below the smallest
/// primitive magnitude.
pub open spec fn sign_of_text(s: Seq<char>) -> Ordering {
    scan_sign(s, false)
}

/// Recovers the sign of a numeric literal whose parsed primitive value is
/// zero. The primitive parser normalises such a value to a signed zero, or
/// to zero outright, losing whether the text denoted a true nonzero value
/// that underflowed; this scan recovers that sign from the text itself.
pub fn parse_sign_of_tiny_float(s: &str) -> (r: Ordering)
    ensures
        r == sign_of_text(s@),
{
    let n: usize = s.unicode_len();
    let mut negative = false;
    let mut i: usize = 0;
    proof {
        assert(s@.skip(0) =~= s@);
    }
    while i < n
        invariant
            i <= n,
            n == s@.len(),
            sign_of_text(s@) == scan_sign(s@.skip(i as int), negative),
        decreases n - i,
    {
        let c = s.get_char(i);
        proof {
            assert(s@.skip(i as int)[0] == s@[i as int]);
            assert(s@.skip(i as int).skip(1) =~= s@.skip(i as int + 1));
        }
        if c == '-' {
            negative = true;
        } else if c == '+' || c == '0' || c == '.' {
            // neither settles the sign nor changes it
        } else if c >= '1' && c <= '9' {
            return if negative {
                Ordering::Less
            } else {
                Ordering::Greater
            };
        } else {
            return Ordering::Equal;
        }
        i = i + 1;
    }
    Ordering::Equal
}

/// A character the scan walks over without settling: a sign, a zero digit,
/// or the decimal point.
pub open spec fn is_scan_neutral(c: char) -> bool {
    c == '-' || c == '+' || c == '0' || c == '.'
}

/// The scan settles at position `k`: a nonzero digit preceded only by signs,
/// zero digits and decimal points.
pub open spec fn settles_at(s: Seq<char>, k: int) -> bool {
    0 <= k < s.len() && is_nonzero_digit(s[k]) && (forall|j: int|
        0 <= j < k ==> is_scan_neutral(s[j]))
}

/// A minus sign stands somewhere before position `k`.
pub open spec fn has_minus_before(s: Seq<char>, k: int) -> bool {
    exists|j: int| 0 <= j < k && s[j] == '-'
}

proof fn lemma_scan_sign_characterised(s: Seq<char>, negative: bool)
    ensures
        scan_sign(s, negative) != Ordering::Equal <==> (exists|k: int| settles_at(s, k)),
        scan_sign(s, negative) == Ordering::Less <==> (exists|k: int|
            settles_at(s, k) && (negative || has_minus_before(s, k))),
    decreases s.len(),
{
    if s.len() == 0 {
    } else if is_scan_neutral(s[0]) {
        let t = s.skip(1);
        let carried = s[0] == '-' || negative;
        lemma_scan_sign_characterised(t, carried);
        assert forall|j: int| 0 <= j < t.len() implies t[j] == s[j + 1] by {}
        // A settling position of the tail shifts to one of the whole input,
        // and back: position 0 of the whole input is neutral, so it never
        // settles itself.
        if exists|k: int| settles_at(t, k) {
            let k = choose|k: int| settles_at(t, k);
            assert(settles_at(s, k + 1)) by {
                assert(forall|j: int| 1 <= j < k + 1 ==> s[j] == t[j - 1]);
            }
        }
        if exists|k: int| settles_at(s, k) {
            let k = choose|k: int| settles_at(s, k);
            assert(k >= 1);
            assert(settles_at(t, k - 1)) by {
                assert(forall|j: int| 0 <= j < k - 1 ==> t[j] == s[j + 1]);
            }
        }
        if exists|k: int| settles_at(t, k) && (carried || has_minus_before(t, k)) {
            let k = choose|k: int| settles_at(t, k) && (carried || has_minus_before(t, k));
            assert(settles_at(s, k + 1));
            if s[0] == '-' {
                assert(has_minus_before(s, k + 1));
            } else if !negative {
                let j = choose|j: int| 0 <= j < k && t[j] == '-';
                assert(s[j + 1] == '-');
                assert(has_minus_before(s, k + 1));
            }
        }
        if exists|k: int| settles_at(s, k) && (negative || has_minus_before(s, k)) {
            let k = choose|k: int| settles_at(s, k) && (negative || has_minus_before(s, k));
            assert(settles_at(t, k - 1));
            if !carried {
                let j = choose|j: int| 0 <= j < k && s[j] == '-';
                assert(j >= 1);
                assert(t[j - 1] == '-');
                assert(has_minus_before(t, k - 1));
            }
        }
    } else if is_nonzero_digit(s[0]) {
        assert(settles_at(s, 0));
        // No later position settles: its prefix would have to make the
        // nonzero digit at position 0 neutral.
        assert forall|k: int| settles_at(s, k) implies k == 0 by {
            if k != 0 {
                assert(is_scan_neutral(s[0]));
            }
        }
    } else {
        assert forall|k: int| !settles_at(s, k) by {
            if 1 <= k < s.len() {
                assert(!is_scan_neutral(s[0]));
            }
        }
    }
}

/// What the sign-recovery scan means, stated without the scan itself: the
/// recovered sign is nonzero exactly when a nonzero digit stands in the
/// input preceded only by signs, zero digits and decimal points, and it is
/// negative exactly when a minus sign additionally stands before that digit.
pub proof fn lemma_sign_of_text_characterised(s: Seq<char>)
    ensures
        sign_of_text(s) != Ordering::Equal <==> (exists|k: int| settles_at(s, k)),
        sign_of_text(s) == Ordering::Less <==> (exists|k: int|
            settles_at(s, k) && has_minus_before(s, k)),
{
    lemma_scan_sign_characterised(s, false);
}

/// The sign product is zero exactly when one of its operands is zero, and it
/// is positive exactly when both operands are nonzero and agree.
pub proof fn lemma_sign_product_cases(lhs: Ordering, rhs: Ordering)
    ensures
        sign_product(lhs, rhs) == Ordering::Equal <==> lhs == Ordering::Equal || rhs
            == Ordering::Equal,
        sign_product(lhs, rhs) == Ordering::Greater <==> lhs != Ordering::Equal && lhs == rhs,
        sign_product(lhs, rhs) == sign_product(rhs, lhs),
{
}

} // verus!
