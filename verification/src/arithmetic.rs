//! Subtraction and counting on fixed-width integers.
//!
//! Two ways of handling a result that does not fit the type are offered, and
//! the choice is made by name, never by build settings:
//!
//! * [`subtract`], [`subtract_u32`] and [`increment`] demand that the exact
//!   result fits. Verus holds every verified caller to that. A caller that
//!   Verus does not see and that breaks the demand is stopped when the
//!   function runs; it is never handed a wrapped value.
//! * [`checked_overflow_subtract`] accepts every pair of operands and returns
//!   the reduced difference together with a flag.

use vstd::pervasive::runtime_assert;
use vstd::prelude::*;

verus! {

/// The number of values of a 64-bit unsigned integer, two to the power 64.
pub open spec fn modulus() -> int {
    0x1_0000_0000_0000_0000
}

/// The exact difference `a - b` reduced into the range `0 .. modulus()`.
pub open spec fn wrapped_difference(a: u64, b: u64) -> int {
    (a - b) % modulus()
}

/// Subtracts `b` from `a` without ever failing.
///
/// The first component is the difference reduced modulo two to the power 64.
/// The second says whether the exact difference lies below zero, which is
/// exactly when the first component differs from it.
pub fn checked_overflow_subtract(a: u64, b: u64) -> (r: (u64, bool))
    ensures
        r.0 == wrapped_difference(a, b),
        r.1 <==> a < b,
        !r.1 ==> r.0 == a - b,
        r.1 ==> r.0 == a - b + modulus(),
{
    (a.wrapping_sub(b), a < b)
}

/// Subtracts `b` from `a` where the exact difference is representable.
///
/// A subtrahend larger than the minuend has no unsigned difference. Such a
/// pair is excluded by the precondition rather than reduced.
pub fn subtract(a: u64, b: u64) -> (difference: u64)
    requires
        b <= a,
    ensures
        difference == a - b,
{
    runtime_assert(b <= a);
    a - b
}

/// Subtracts `b` from `a` on 32-bit operands, under the same terms as
/// [`subtract`].
pub fn subtract_u32(a: u32, b: u32) -> (difference: u32)
    requires
        b <= a,
    ensures
        difference == a - b,
{
    runtime_assert(b <= a);
    a - b
}

/// Advances `counter` by one.
///
/// The largest value has no successor in the type and is excluded by the
/// precondition.
pub fn increment(counter: &mut i32)
    requires
        *old(counter) < i32::MAX,
    ensures
        *final(counter) == *old(counter) + 1,
{
    runtime_assert(*counter < i32::MAX);
    *counter = *counter + 1;
}

} // verus!
