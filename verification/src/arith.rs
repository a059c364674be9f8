//! Integer addition with two's-complement wraparound, and the fixed
//! arithmetic demonstration built from it.

use vstd::prelude::*;

verus! {

/// Mathematical meaning of 32-bit signed addition with wraparound:
/// the exact sum, brought back into the `i32` range by adding or
/// subtracting one full period of 2^32 when it falls outside.
pub open spec fn add_spec(i: i32, j: i32) -> i32 {
    if i + j > i32::MAX {
        (i + j - 0x1_0000_0000) as i32
    } else if i + j < i32::MIN {
        (i + j + 0x1_0000_0000) as i32
    } else {
        (i + j) as i32
    }
}

/// Two-argument addition helper: returns `i + j` with two's-complement
/// wraparound, for every pair of inputs.
pub fn add(i: i32, j: i32) -> (r: i32)
    ensures
        r == add_spec(i, j),
        i32::MIN <= i + j <= i32::MAX ==> r == i + j,
{
    i.wrapping_add(j)
}

/// The arithmetic demonstration: two fixed bindings, one binding
/// reassigned before use, composed as `(a + b) + (c + d)` through the
/// helper. The value printed by the demonstration is exactly 100.
pub fn arithmetic_demo_value() -> (r: i32)
    ensures
        r == 100,
{
    let a: i32 = 10;
    let b: i32 = 20;
    let mut c: i32 = 30;
    c = 40;
    let d: i32 = 30;
    let left: i32 = crate::arith::add(a, b);
    let right: i32 = crate::arith::add(c, d);
    crate::arith::add(left, right)
}

/// Wraparound addition is commutative.
pub proof fn lemma_add_commutative(i: i32, j: i32)
    ensures
        add_spec(i, j) == add_spec(j, i),
{
}

/// Wraparound addition is associative: grouping does not matter, even
/// when an intermediate sum wraps.
pub proof fn lemma_add_associative(i: i32, j: i32, k: i32)
    ensures
        add_spec(add_spec(i, j), k) == add_spec(i, add_spec(j, k)),
{
}

} // verus!
