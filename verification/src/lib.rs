//! Hildie: a greeting formatter and an integer adder, with the rules of the
//! command line and of batch greeting built on them.

use vstd::prelude::*;

pub mod batch;
pub mod cli;

verus! {

/// The text of the greeting for `name`: a fixed opening, the name as it
/// stands (nothing escaped, nothing trimmed), and an exclamation mark.
pub open spec fn greeting_text(name: Seq<char>) -> Seq<char> {
    "Hello from Hildie Rust Library, "@ + name + "!"@
}

/// The sum of `a` and `b` as a 32-bit signed integer that wraps around:
/// the mathematical sum where it fits, else the sum moved by 2^32 into range.
pub open spec fn wrapped_sum(a: i32, b: i32) -> int {
    if a + b > i32::MAX {
        a + b - 0x1_0000_0000
    } else if a + b < i32::MIN {
        a + b + 0x1_0000_0000
    } else {
        a + b
    }
}

/// Returns the greeting for `name`. Every name is accepted, the empty one too.
pub fn greet(name: &str) -> (greeting: String)
    ensures
        greeting@ == greeting_text(name@),
{
    let mut greeting = String::from_str("Hello from Hildie Rust Library, ");
    greeting.append(name);
    greeting.append("!");
    greeting
}

/// Adds two integers. The sum wraps around at the bounds of `i32`, so the
/// function is total; where the mathematical sum fits, it is returned.
pub fn add(a: i32, b: i32) -> (sum: i32)
    ensures
        sum == wrapped_sum(a, b),
        i32::MIN <= a + b <= i32::MAX ==> sum == a + b,
{
    a.wrapping_add(b)
}

/// Addition does not depend on the order of its operands, whether or not
/// the sum wraps.
pub proof fn add_is_commutative(a: i32, b: i32)
    ensures
        wrapped_sum(a, b) == wrapped_sum(b, a),
{
}

/// Where the mathematical sum of two operands fits in an `i32`, the wrapped
/// sum is that sum.
pub proof fn add_is_exact_in_range(a: i32, b: i32)
    requires
        i32::MIN <= a + b <= i32::MAX,
    ensures
        wrapped_sum(a, b) == a + b,
{
}

} // verus!
