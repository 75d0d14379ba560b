//! The error for conversions that are offered a NaN.

use vstd::prelude::*;

verus! {

/// Error indicating an attempt to convert a NaN to a finite float.
#[derive(Clone, Copy, Debug, PartialEq, Eq, Structural)]
pub struct NanError;

impl NanError {
    /// A human-readable description of the error.
    pub fn message(&self) -> (r: String)
        ensures
            r@ == "conversion from NaN to finite float"@,
    {
        "conversion from NaN to finite float".to_owned()
    }
}

} // verus!
