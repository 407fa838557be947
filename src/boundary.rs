//! The exposed operations. Every parameter and result is a fixed-width
//! unsigned integer, so its bit layout is the same on both sides of the call.
use vstd::prelude::*;

verus! {

/// The number of distinct values of a `u32`.
pub open spec fn word_range() -> int {
    0x1_0000_0000
}

/// The sum of `a` and `b`, reduced modulo 2^32.
pub open spec fn wrapped_sum(a: u32, b: u32) -> u32 {
    ((a as int + b as int) % word_range()) as u32
}

/// Adds two numbers, wrapping around on overflow.
///
/// Defined for every pair of inputs: overflow is an ordinary outcome,
/// never a fault.
pub fn rust_add(a: u32, b: u32) -> (r: u32)
    ensures
        r == wrapped_sum(a, b),
{
    a.wrapping_add(b)
}

/// The order of the operands does not change the sum.
pub proof fn lemma_add_commutative(a: u32, b: u32)
    ensures
        wrapped_sum(a, b) == wrapped_sum(b, a),
{
}

/// Adding zero gives the other operand back.
pub proof fn lemma_add_identity(a: u32)
    ensures
        wrapped_sum(a, 0) == a,
{
}

} // verus!
