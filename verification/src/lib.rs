//! Arithmetic on unsigned 64-bit words, as offered to a host runtime that
//! calls it with one or two arguments.
//!
//! Every function here is pure: it reads its arguments, holds no state and
//! never fails. Sums are taken modulo two to the power 64.

use vstd::prelude::*;

verus! {

/// The addend that stands in for a second argument the caller left out.
pub const DEFAULT_ADDEND: u64 = 0;

/// Two to the power 64: the number of values a 64-bit word can hold.
pub open spec fn word_modulus() -> int {
    0x1_0000_0000_0000_0000
}

/// The sum of `a` and `b` as a 64-bit word holds it: the mathematical sum,
/// reduced modulo two to the power 64.
pub open spec fn wrapped_sum(a: u64, b: u64) -> int {
    (a + b) % word_modulus()
}

/// The second addend of a call: the one given, or the default where the
/// caller gave none.
pub open spec fn addend_or_default(b: Option<u64>) -> u64 {
    match b {
        Some(v) => v,
        None => DEFAULT_ADDEND,
    }
}

/// Adds two unsigned 64-bit integers. A sum that does not fit in 64 bits
/// wraps around; no input is refused.
pub fn add(a: u64, b: u64) -> (sum: u64)
    ensures
        sum == wrapped_sum(a, b),
{
    a.wrapping_add(b)
}

/// Adds with an optional second addend, which defaults to
/// [`DEFAULT_ADDEND`] when absent.
pub fn add_optional(a: u64, b: Option<u64>) -> (sum: u64)
    ensures
        sum == wrapped_sum(a, addend_or_default(b)),
{
    match b {
        Some(v) => self::add(a, v),
        None => self::add(a, DEFAULT_ADDEND),
    }
}

/// Leaving the second addend out is the same as passing zero, and both
/// give back the first addend unchanged.
pub proof fn lemma_omitted_addend_is_zero(a: u64)
    ensures
        wrapped_sum(a, addend_or_default(None)) == wrapped_sum(a, 0),
        wrapped_sum(a, 0) == a,
{
}

} // verus!
