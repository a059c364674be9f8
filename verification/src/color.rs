//! Positional three-field records and the destructuring check on the
//! fixed record `(0, 127, 255)`.

use vstd::prelude::*;

verus! {

/// A positional record of three ordered integer fields, accessed by
/// position; the fields are fixed at construction.
pub struct Color(pub i32, pub i32, pub i32);

/// A second positional record of the same shape, the one the check
/// below takes.
pub struct Point(pub i32, pub i32, pub i32);

/// The record the demonstration constructs and checks: `(0, 127, 255)`.
pub open spec fn expected_color(p: Point) -> bool {
    p.0 == 0 && p.1 == 127 && p.2 == 255
}

/// Whether the three positional fields hold exactly `(0, 127, 255)`;
/// true for exactly that record and false whenever one field differs.
pub fn is_expected_color(p: &Point) -> (r: bool)
    ensures
        r == expected_color(*p),
{
    p.0 == 0 && p.1 == 127 && p.2 == 255
}

/// Destructures the three positional fields into named values and
/// checks them against `(0, 127, 255)`. The demonstration aborts on any
/// other record, so only the expected one is admitted here; callers
/// test with `is_expected_color` first.
pub fn check_color(p: Point)
    requires
        expected_color(p),
{
    let (x, y, z): (i32, i32, i32) = (p.0, p.1, p.2);
    assert(x == 0);
    assert(y == 127);
    assert(z == 255);
}

} // verus!
