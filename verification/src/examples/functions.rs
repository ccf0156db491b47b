//! Function snippets: the final expression of a body is its value, and a
//! function may be passed as a value and applied by the callee.

use vstd::prelude::*;

verus! {

/// The body's final expression, without a semicolon, is the return value.
pub fn plus_one(a: i32) -> (r: i32)
    requires
        a < i32::MAX,
    ensures
        r == a + 1,
{
    a + 1
}

/// Applies the given function twice. The caller supplies a function that may
/// be applied to `x` and again to whatever that application returns; the
/// result is a value reachable by two applications.
pub fn plus_two<F: Fn(i32) -> i32>(b: F, x: i32) -> (r: i32)
    requires
        call_requires(b, (x,)),
        forall|y: i32| call_ensures(b, (x,), y) ==> call_requires(b, (y,)),
    ensures
        exists|y: i32| call_ensures(b, (x,), y) && call_ensures(b, (y,), r),
{
    let y = b(x);
    b(y)
}

} // verus!
