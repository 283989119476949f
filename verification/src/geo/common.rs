//! Small shared helpers for the geometry kernel.

use vstd::prelude::*;

use crate::geo::fixed::{abs_s, EPSILON, SCALE};

verus! {

/// What `sign` returns: zero for values within tolerance of zero, else the
/// unit value carrying the sign.
pub open spec fn sign_s(v: int) -> int {
    if abs_s(v) < EPSILON as int {
        0
    } else if v < 0 {
        -(SCALE as int)
    } else {
        SCALE as int
    }
}

/// Converts a value into a unit-length value with the same sign.
pub fn sign(value: i64) -> (r: i64)
    ensures
        r as int == sign_s(value as int),
{
    if -EPSILON < value && value < EPSILON {
        0
    } else if value < 0 {
        -SCALE
    } else {
        SCALE
    }
}

} // verus!
