//! Lifetime snippets: a returned reference must live as long as the inputs
//! it may point into, and elision lets a single input lifetime flow to the
//! output.

use vstd::prelude::*;
use vstd::string::{StrSliceExecFns, StringSliceAdditionalSpecFns};

verus! {

/// Returns whichever input holds more bytes, the second on a tie; both
/// inputs and the result share one lifetime.
pub fn longest<'a>(x: &'a str, y: &'a str) -> (r: &'a str)
    ensures
        r@ == if x.spec_bytes().len() > y.spec_bytes().len() {
            x@
        } else {
            y@
        },
{
    let x_bytes = x.as_bytes();
    let y_bytes = y.as_bytes();
    if x_bytes.len() > y_bytes.len() {
        x
    } else {
        y
    }
}

/// The prefix of `s` up to, and not including, its first space; the whole
/// string when it holds none. The single input lifetime is elided onto the
/// returned slice.
pub fn first_word<'a>(s: &'a str) -> (r: &'a str)
    ensures
        r@.len() <= s@.len(),
        r@ == s@.subrange(0, r@.len() as int),
        forall|j: int| 0 <= j < r@.len() ==> s@[j] != ' ',
        r@.len() < s@.len() ==> s@[r@.len() as int] == ' ',
{
    let n = s.unicode_len();
    let mut i: usize = 0;
    while i < n
        invariant
            n == s@.len(),
            i <= n,
            forall|j: int| 0 <= j < i ==> s@[j] != ' ',
        decreases n - i,
    {
        if s.get_char(i) == ' ' {
            let r = s.substring_char(0, i);
            proof {
                assert(r@ =~= s@.subrange(0, i as int));
            }
            return r;
        }
        i += 1;
    }
    proof {
        assert(s@ =~= s@.subrange(0, s@.len() as int));
    }
    s
}

} // verus!
