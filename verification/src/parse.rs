//! The semantic half of reading a catalog: recognizing topic and expectation
//! names, reading a decimal id, and decoding the escaped form an expected
//! stdout is written in. Callers split the input into fields; every rule
//! about what a field means is verified here.

use vstd::prelude::*;
use vstd::string::{StrSliceExecFns, StringExecFns};
use crate::catalog::{ExpectedOutcome, LoadError, Snippet, Topic};

verus! {

/// Character-for-character equality of two string slices.
pub fn str_eq(a: &str, b: &str) -> (r: bool)
    ensures
        r == (a@ == b@),
{
    let n = a.unicode_len();
    let m = b.unicode_len();
    if n != m {
        return false;
    }
    let mut i: usize = 0;
    while i < n
        invariant
            n == a@.len(),
            n == b@.len(),
            i <= n,
            forall|j: int| 0 <= j < i ==> a@[j] == b@[j],
        decreases n - i,
    {
        if a.get_char(i) != b.get_char(i) {
            return false;
        }
        i += 1;
    }
    proof {
        assert(a@ =~= b@);
    }
    true
}

/// The topic a name denotes, if any.
pub open spec fn spec_topic_from_name(name: Seq<char>) -> Option<Topic> {
    if name == "enums"@ {
        Some(Topic::Enums)
    } else if name == "structs"@ {
        Some(Topic::Structs)
    } else if name == "traits"@ {
        Some(Topic::Traits)
    } else if name == "generics"@ {
        Some(Topic::Generics)
    } else if name == "lifetimes"@ {
        Some(Topic::Lifetimes)
    } else if name == "strings"@ {
        Some(Topic::Strings)
    } else if name == "vectors"@ {
        Some(Topic::Vectors)
    } else if name == "hash maps"@ {
        Some(Topic::HashMaps)
    } else if name == "control flow"@ {
        Some(Topic::ControlFlow)
    } else {
        None
    }
}

/// Recognizes a topic name; the names are the rendered ones.
pub fn topic_from_name(name: &str) -> (r: Option<Topic>)
    ensures
        r == spec_topic_from_name(name@),
{
    if str_eq(name, "enums") {
        Some(Topic::Enums)
    } else if str_eq(name, "structs") {
        Some(Topic::Structs)
    } else if str_eq(name, "traits") {
        Some(Topic::Traits)
    } else if str_eq(name, "generics") {
        Some(Topic::Generics)
    } else if str_eq(name, "lifetimes") {
        Some(Topic::Lifetimes)
    } else if str_eq(name, "strings") {
        Some(Topic::Strings)
    } else if str_eq(name, "vectors") {
        Some(Topic::Vectors)
    } else if str_eq(name, "hash maps") {
        Some(Topic::HashMaps)
    } else if str_eq(name, "control flow") {
        Some(Topic::ControlFlow)
    } else {
        None
    }
}

/// The expectation a name denotes, if any.
pub open spec fn spec_expected_from_name(name: Seq<char>) -> Option<ExpectedOutcome> {
    if name == "compiles-runs"@ {
        Some(ExpectedOutcome::CompilesRuns)
    } else if name == "compiles-only"@ {
        Some(ExpectedOutcome::CompilesOnly)
    } else if name == "compile-error"@ {
        Some(ExpectedOutcome::CompileError)
    } else if name == "runtime-panic"@ {
        Some(ExpectedOutcome::RuntimePanic)
    } else {
        None
    }
}

/// Recognizes an expected-outcome name.
pub fn expected_from_name(name: &str) -> (r: Option<ExpectedOutcome>)
    ensures
        r == spec_expected_from_name(name@),
{
    if str_eq(name, "compiles-runs") {
        Some(ExpectedOutcome::CompilesRuns)
    } else if str_eq(name, "compiles-only") {
        Some(ExpectedOutcome::CompilesOnly)
    } else if str_eq(name, "compile-error") {
        Some(ExpectedOutcome::CompileError)
    } else if str_eq(name, "runtime-panic") {
        Some(ExpectedOutcome::RuntimePanic)
    } else {
        None
    }
}

/// A decimal digit.
pub open spec fn is_digit(c: char) -> bool {
    '0' <= c && c <= '9'
}

/// The value of a decimal digit.
pub open spec fn digit_val(c: char) -> int {
    c as int - '0' as int
}

/// Every character is a decimal digit.
pub open spec fn all_digits(s: Seq<char>) -> bool {
    forall|i: int| 0 <= i < s.len() ==> is_digit(#[trigger] s[i])
}

/// The value of a sequence of decimal digits, most significant first.
pub open spec fn dec_val(s: Seq<char>) -> int
    decreases s.len(),
{
    if s.len() == 0 {
        0
    } else {
        dec_val(s.drop_last()) * 10 + digit_val(s.last())
    }
}

/// The value of a digit sequence only grows as digits are appended.
proof fn lemma_dec_val_prefix(s: Seq<char>, k: int)
    requires
        all_digits(s),
        0 <= k <= s.len(),
    ensures
        0 <= dec_val(s.subrange(0, k)) <= dec_val(s),
    decreases s.len() - k,
{
    if k == s.len() {
        assert(s.subrange(0, k) =~= s);
        lemma_dec_val_nonneg(s);
    } else {
        lemma_dec_val_prefix(s, k + 1);
        let longer = s.subrange(0, k + 1);
        assert(longer.drop_last() =~= s.subrange(0, k));
        lemma_dec_val_nonneg(s.subrange(0, k));
    }
}

/// A digit sequence's value is nonnegative.
proof fn lemma_dec_val_nonneg(s: Seq<char>)
    requires
        all_digits(s),
    ensures
        dec_val(s) >= 0,
    decreases s.len(),
{
    if s.len() > 0 {
        assert(all_digits(s.drop_last()));
        lemma_dec_val_nonneg(s.drop_last());
    }
}

/// Reads a decimal `u64`: succeeds exactly on a nonempty, all-digit string
/// whose value fits, and then returns that value.
pub fn parse_u64(s: &str) -> (r: Option<u64>)
    ensures
        r matches Some(n) ==> s@.len() > 0 && all_digits(s@) && n == dec_val(s@),
        r is None <==> s@.len() == 0 || !all_digits(s@) || dec_val(s@) > u64::MAX,
{
    let len = s.unicode_len();
    if len == 0 {
        return None;
    }
    let mut n: u64 = 0;
    let mut i: usize = 0;
    while i < len
        invariant
            len == s@.len(),
            0 < len,
            i <= len,
            all_digits(s@.subrange(0, i as int)),
            n == dec_val(s@.subrange(0, i as int)),
        decreases len - i,
    {
        let c = s.get_char(i);
        if c < '0' || c > '9' {
            return None;
        }
        let d: u64 = (c as u32 as u64) - 48;
        proof {
            assert(s@.subrange(0, i + 1).drop_last() =~= s@.subrange(0, i as int));
            assert(all_digits(s@.subrange(0, i + 1)));
        }
        if n > (u64::MAX - d) / 10 {
            proof {
                assert(10 * ((u64::MAX - d) / 10) + (u64::MAX - d) % 10 == u64::MAX - d);
                assert(dec_val(s@.subrange(0, i + 1)) > u64::MAX);
                if all_digits(s@) {
                    lemma_dec_val_prefix(s@, i + 1);
                }
            }
            return None;
        }
        n = n * 10 + d;
        i += 1;
    }
    proof {
        assert(s@.subrange(0, len as int) =~= s@);
    }
    Some(n)
}

/// The decoded form of an escaped field: the two-character sequence `\n`
/// stands for a newline; every other character stands for itself.
pub open spec fn unescaped(s: Seq<char>) -> Seq<char>
    decreases s.len(),
{
    if s.len() == 0 {
        Seq::empty()
    } else if s.len() >= 2 && s[0] == '\\' && s[1] == 'n' {
        seq!['\n'] + unescaped(s.skip(2))
    } else {
        seq![s[0]] + unescaped(s.skip(1))
    }
}

/// Decodes an escaped expected-stdout field.
pub fn decode_escaped(s: &str) -> (r: String)
    ensures
        r@ == unescaped(s@),
{
    let len = s.unicode_len();
    let mut out = String::new();
    let mut i: usize = 0;
    proof {
        assert(s@.skip(0) =~= s@);
        assert(Seq::<char>::empty() + unescaped(s@) =~= unescaped(s@));
    }
    while i < len
        invariant
            len == s@.len(),
            i <= len,
            out@ + unescaped(s@.skip(i as int)) == unescaped(s@),
        decreases len - i,
    {
        let c = s.get_char(i);
        if c == '\\' && i + 1 < len && s.get_char(i + 1) == 'n' {
            proof {
                reveal_strlit("\n");
                assert(s@.skip(i as int).skip(2) =~= s@.skip(i + 2));
                assert("\n"@ =~= seq!['\n']);
                assert((out@ + "\n"@) + unescaped(s@.skip(i + 2)) =~= out@ + unescaped(
                    s@.skip(i as int),
                ));
            }
            out.append("\n");
            i += 2;
        } else {
            proof {
                assert(s@.skip(i as int).skip(1) =~= s@.skip(i + 1));
                assert(s@.subrange(i as int, i + 1) =~= seq![s@[i as int]]);
                assert((out@ + seq![s@[i as int]]) + unescaped(s@.skip(i + 1)) =~= out@
                    + unescaped(s@.skip(i as int)));
            }
            let one = s.substring_char(i, i + 1);
            out.append(one);
            i += 1;
        }
    }
    proof {
        assert(s@.skip(len as int) =~= Seq::<char>::empty());
        assert(out@ =~= unescaped(s@));
    }
    out
}

/// The position of the first occurrence of `c` in `s`, if any.
pub open spec fn find_first(s: Seq<char>, c: char) -> Option<int>
    decreases s.len(),
{
    if s.len() == 0 {
        None
    } else if s[0] == c {
        Some(0)
    } else {
        match find_first(s.skip(1), c) {
            Some(i) => Some(i + 1),
            None => None,
        }
    }
}

/// `find_first` returns the least position holding `c`, and `None` exactly
/// when `c` does not occur.
pub proof fn lemma_find_first_characterization(s: Seq<char>, c: char)
    ensures
        match find_first(s, c) {
            Some(i) => 0 <= i < s.len() && s[i] == c && forall|j: int| 0 <= j < i ==> s[j] != c,
            None => forall|j: int| 0 <= j < s.len() ==> s[j] != c,
        },
    decreases s.len(),
{
    if s.len() > 0 && s[0] != c {
        let sk = s.skip(1);
        lemma_find_first_characterization(sk, c);
        assert(forall|j: int| 0 <= j < sk.len() ==> sk[j] == s[j + 1]);
        match find_first(sk, c) {
            Some(i) => {
                assert(s[i + 1] == c);
                assert(forall|j: int| 0 <= j < i + 1 ==> s[j] != c) by {
                    assert(forall|j: int| 1 <= j < i + 1 ==> s[j] == sk[j - 1] && sk[j - 1] != c);
                }
            },
            None => {
                assert(forall|j: int| 0 <= j < s.len() ==> s[j] != c) by {
                    assert(forall|j: int| 1 <= j < s.len() ==> s[j] == sk[j - 1] && sk[j - 1] != c);
                }
            },
        }
    }
}

/// Finds the first occurrence of `c` in `s`.
fn find_char(s: &str, c: char) -> (r: Option<usize>)
    ensures
        match r {
            Some(i) => find_first(s@, c) == Some(i as int),
            None => find_first(s@, c) is None,
        },
{
    proof {
        lemma_find_first_characterization(s@, c);
    }
    let len = s.unicode_len();
    let mut i: usize = 0;
    while i < len
        invariant
            len == s@.len(),
            i <= len,
            forall|j: int| 0 <= j < i ==> s@[j] != c,
            match find_first(s@, c) {
                Some(k) => 0 <= k < s@.len() && s@[k] == c && forall|j: int|
                    0 <= j < k ==> s@[j] != c,
                None => forall|j: int| 0 <= j < s@.len() ==> s@[j] != c,
            },
        decreases len - i,
    {
        if s.get_char(i) == c {
            return Some(i);
        }
        i += 1;
    }
    None
}

/// The four tab-separated spans of a header line: an id, a topic, an
/// expectation, and an optional fourth field. A line with fewer than two
/// tabs has no field decomposition.
pub open spec fn spec_header_fields(line: Seq<char>) -> Option<
    (Seq<char>, Seq<char>, Seq<char>, Option<Seq<char>>),
> {
    match find_first(line, '\t') {
        None => None,
        Some(t1) => {
            let rest1 = line.skip(t1 + 1);
            match find_first(rest1, '\t') {
                None => None,
                Some(t2) => {
                    let rest2 = rest1.skip(t2 + 1);
                    match find_first(rest2, '\t') {
                        None => Some((line.take(t1), rest1.take(t2), rest2, None)),
                        Some(t3) => Some(
                            (line.take(t1), rest1.take(t2), rest2.take(t3), Some(
                                rest2.skip(t3 + 1),
                            )),
                        ),
                    }
                },
            }
        },
    }
}

/// Reads one record header line together with the record's source text.
/// Succeeds exactly when the line splits into at least three tab-separated
/// fields and the first three are a well-formed id, topic and expectation;
/// any other line is malformed. The fourth field, when present, is the
/// escaped expected stdout.
pub fn parse_header(line: &str, source: String) -> (r: Result<Snippet, LoadError>)
    ensures
        r is Ok <==> (spec_header_fields(line@) matches Some(f) && f.0.len() > 0 && all_digits(f.0)
            && dec_val(f.0) <= u64::MAX && spec_topic_from_name(f.1) is Some
            && spec_expected_from_name(f.2) is Some),
        r matches Ok(s) ==> (spec_header_fields(line@) matches Some(f) && {
            &&& s.id == dec_val(f.0)
            &&& Some(s.topic) == spec_topic_from_name(f.1)
            &&& Some(s.expected) == spec_expected_from_name(f.2)
            &&& s.source == source
            &&& match f.3 {
                None => s.expected_stdout is None,
                Some(sf) => s.expected_stdout matches Some(x) && x@ == unescaped(sf),
            }
        }),
        r matches Err(e) ==> e is Malformed,
{
    let len = line.unicode_len();
    let t1 = match find_char(line, '\t') {
        Some(t1) => t1,
        None => {
            return Err(LoadError::Malformed);
        },
    };
    proof {
        lemma_find_first_characterization(line@, '\t');
    }
    let id_field = line.substring_char(0, t1);
    let rest1 = line.substring_char(t1 + 1, len);
    proof {
        assert(id_field@ =~= line@.take(t1 as int));
        assert(rest1@ =~= line@.skip(t1 + 1));
    }
    let rest1_len = rest1.unicode_len();
    let t2 = match find_char(rest1, '\t') {
        Some(t2) => t2,
        None => {
            return Err(LoadError::Malformed);
        },
    };
    proof {
        lemma_find_first_characterization(rest1@, '\t');
    }
    let topic_field = rest1.substring_char(0, t2);
    let rest2 = rest1.substring_char(t2 + 1, rest1_len);
    proof {
        assert(topic_field@ =~= rest1@.take(t2 as int));
        assert(rest2@ =~= rest1@.skip(t2 + 1));
    }
    let rest2_len = rest2.unicode_len();
    let (expected_field, stdout_field) = match find_char(rest2, '\t') {
        None => (rest2, None),
        Some(t3) => {
            proof {
                lemma_find_first_characterization(rest2@, '\t');
            }
            let ef = rest2.substring_char(0, t3);
            let sf = rest2.substring_char(t3 + 1, rest2_len);
            proof {
                assert(ef@ =~= rest2@.take(t3 as int));
                assert(sf@ =~= rest2@.skip(t3 + 1));
            }
            (ef, Some(sf))
        },
    };
    let (id, topic, expected, expected_stdout) = match parse_header_fields(
        id_field,
        topic_field,
        expected_field,
        stdout_field,
    ) {
        Ok(h) => h,
        Err(e) => {
            return Err(e);
        },
    };
    Ok(Snippet { id, topic, source, expected, expected_stdout })
}

/// Reads the fields of one record header: a decimal id, a topic name, an
/// expectation name, and an optional escaped expected stdout. Succeeds
/// exactly when the first three fields are well formed; any other header is
/// malformed.
pub fn parse_header_fields(
    id_field: &str,
    topic_field: &str,
    expected_field: &str,
    stdout_field: Option<&str>,
) -> (r: Result<(u64, Topic, ExpectedOutcome, Option<String>), LoadError>)
    ensures
        r is Ok <==> (id_field@.len() > 0 && all_digits(id_field@) && dec_val(id_field@)
            <= u64::MAX && spec_topic_from_name(topic_field@) is Some && spec_expected_from_name(
            expected_field@,
        ) is Some),
        r matches Ok((id, topic, expected, stdout)) ==> {
            &&& id == dec_val(id_field@)
            &&& Some(topic) == spec_topic_from_name(topic_field@)
            &&& Some(expected) == spec_expected_from_name(expected_field@)
            &&& match stdout_field {
                None => stdout is None,
                Some(f) => stdout matches Some(s) && s@ == unescaped(f@),
            }
        },
        r matches Err(e) ==> e is Malformed,
{
    let id = match parse_u64(id_field) {
        Some(id) => id,
        None => {
            return Err(LoadError::Malformed);
        },
    };
    let topic = match topic_from_name(topic_field) {
        Some(t) => t,
        None => {
            return Err(LoadError::Malformed);
        },
    };
    let expected = match expected_from_name(expected_field) {
        Some(e) => e,
        None => {
            return Err(LoadError::Malformed);
        },
    };
    let stdout = match stdout_field {
        Some(f) => Some(decode_escaped(f)),
        None => None,
    };
    Ok((id, topic, expected, stdout))
}

} // verus!
