//! String snippets: concatenation moves its left operand and borrows its
//! right one.

use vstd::prelude::*;
use vstd::string::StringExecFns;

verus! {

/// Concatenation as the `+` operator performs it: takes ownership of the
/// left string, borrows the right slice, and returns the characters of the
/// first followed by the characters of the second.
pub fn add(s1: String, s2: &str) -> (r: String)
    ensures
        r@ == s1@ + s2@,
{
    s1.concat(s2)
}

} // verus!
