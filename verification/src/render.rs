//! The report renderer: a pure function from an aggregated report to its
//! textual form, specified character for character. Topics come in the fixed
//! grouping order; empty topics are omitted; every mismatch is listed with
//! its id and diagnostic.

use vstd::prelude::*;
use vstd::string::StringExecFns;
use crate::catalog::Topic;
use crate::report::{Mismatch, Report, TopicTally};

verus! {

/// The character for one decimal digit.
pub open spec fn digit_char(d: int) -> char {
    if d == 0 {
        '0'
    } else if d == 1 {
        '1'
    } else if d == 2 {
        '2'
    } else if d == 3 {
        '3'
    } else if d == 4 {
        '4'
    } else if d == 5 {
        '5'
    } else if d == 6 {
        '6'
    } else if d == 7 {
        '7'
    } else if d == 8 {
        '8'
    } else {
        '9'
    }
}

/// The decimal representation of a nonnegative integer, most significant
/// digit first, without leading zeros (zero itself is `"0"`).
pub open spec fn dec_rep(n: int) -> Seq<char>
    decreases n,
{
    if n < 10 {
        seq![digit_char(n)]
    } else {
        dec_rep(n / 10).push(digit_char(n % 10))
    }
}

/// The name a topic is rendered under.
pub open spec fn spec_topic_name(t: Topic) -> Seq<char> {
    match t {
        Topic::Enums => "enums"@,
        Topic::Structs => "structs"@,
        Topic::Traits => "traits"@,
        Topic::Generics => "generics"@,
        Topic::Lifetimes => "lifetimes"@,
        Topic::Strings => "strings"@,
        Topic::Vectors => "vectors"@,
        Topic::HashMaps => "hash maps"@,
        Topic::ControlFlow => "control flow"@,
    }
}

/// The rendered name of a topic.
pub fn topic_name(t: Topic) -> (r: &'static str)
    ensures
        r@ == spec_topic_name(t),
{
    match t {
        Topic::Enums => "enums",
        Topic::Structs => "structs",
        Topic::Traits => "traits",
        Topic::Generics => "generics",
        Topic::Lifetimes => "lifetimes",
        Topic::Strings => "strings",
        Topic::Vectors => "vectors",
        Topic::HashMaps => "hash maps",
        Topic::ControlFlow => "control flow",
    }
}

/// One pass/fail counts line: `<label>: <pass> passed, <fail> failed\n`.
pub open spec fn counts_text(label: Seq<char>, pass: int, fail: int) -> Seq<char> {
    label + ": "@ + dec_rep(pass) + " passed, "@ + dec_rep(fail) + " failed\n"@
}

/// A topic's line; a topic without results is omitted entirely.
pub open spec fn tally_text(t: TopicTally) -> Seq<char> {
    if t.pass + t.fail == 0 {
        Seq::empty()
    } else {
        counts_text(spec_topic_name(t.topic), t.pass as int, t.fail as int)
    }
}

/// The topic lines, in tally order.
pub open spec fn tally_lines(ts: Seq<TopicTally>) -> Seq<char>
    decreases ts.len(),
{
    if ts.len() == 0 {
        Seq::empty()
    } else {
        tally_lines(ts.drop_last()) + tally_text(ts.last())
    }
}

/// One mismatch line: `mismatch <id>: <diagnostic>\n`.
pub open spec fn mismatch_text(m: Mismatch) -> Seq<char> {
    "mismatch "@ + dec_rep(m.snippet_id as int) + ": "@ + m.diagnostic@ + "\n"@
}

/// The mismatch lines, in listing order.
pub open spec fn mismatch_lines(ms: Seq<Mismatch>) -> Seq<char>
    decreases ms.len(),
{
    if ms.len() == 0 {
        Seq::empty()
    } else {
        mismatch_lines(ms.drop_last()) + mismatch_text(ms.last())
    }
}

/// The full rendered report: the non-empty topic lines, the overall counts
/// line, then every mismatch with its diagnostic.
pub open spec fn render_text(report: Report) -> Seq<char> {
    tally_lines(report.by_topic@) + counts_text("total"@, report.pass as int, report.fail as int)
        + mismatch_lines(report.mismatches@)
}

/// One decimal digit as text.
fn digit_str(d: u64) -> (r: &'static str)
    requires
        d < 10,
    ensures
        r@ == seq![digit_char(d as int)],
{
    proof {
        reveal_strlit("0");
        reveal_strlit("1");
        reveal_strlit("2");
        reveal_strlit("3");
        reveal_strlit("4");
        reveal_strlit("5");
        reveal_strlit("6");
        reveal_strlit("7");
        reveal_strlit("8");
        reveal_strlit("9");
    }
    let r = match d {
        0 => "0",
        1 => "1",
        2 => "2",
        3 => "3",
        4 => "4",
        5 => "5",
        6 => "6",
        7 => "7",
        8 => "8",
        _ => "9",
    };
    proof {
        assert(r@ =~= seq![digit_char(d as int)]);
    }
    r
}

/// Appends the decimal representation of `n`.
fn push_u64(out: &mut String, n: u64)
    ensures
        final(out)@ == old(out)@ + dec_rep(n as int),
    decreases n,
{
    if n < 10 {
        out.append(digit_str(n));
    } else {
        push_u64(out, n / 10);
        out.append(digit_str(n % 10));
        proof {
            assert(old(out)@ + dec_rep(n as int) =~= (old(out)@ + dec_rep(n as int / 10)) + seq![
                digit_char(n as int % 10),
            ]);
        }
    }
}

/// Appends one counts line for the given label.
fn push_counts(out: &mut String, label: &str, pass: usize, fail: usize)
    ensures
        final(out)@ == old(out)@ + counts_text(label@, pass as int, fail as int),
{
    out.append(label);
    out.append(": ");
    push_u64(out, pass as u64);
    out.append(" passed, ");
    push_u64(out, fail as u64);
    out.append(" failed\n");
    proof {
        assert(final(out)@ =~= old(out)@ + counts_text(label@, pass as int, fail as int));
    }
}

/// Renders an aggregated report. Pure and deterministic: the result is a
/// function of the report alone, pinned down by [`render_text`].
pub fn render(report: &Report) -> (r: String)
    ensures
        r@ == render_text(*report),
{
    let mut out = String::new();
    let mut k: usize = 0;
    while k < report.by_topic.len()
        invariant
            k <= report.by_topic@.len(),
            out@ == tally_lines(report.by_topic@.subrange(0, k as int)),
        decreases report.by_topic@.len() - k,
    {
        proof {
            assert(report.by_topic@.subrange(0, k + 1).drop_last() =~= report.by_topic@.subrange(
                0,
                k as int,
            ));
        }
        let tally = report.by_topic[k];
        if tally.pass > 0 || tally.fail > 0 {
            push_counts(&mut out, topic_name(tally.topic), tally.pass, tally.fail);
        }
        proof {
            assert(out@ =~= tally_lines(report.by_topic@.subrange(0, k + 1)));
        }
        k += 1;
    }
    proof {
        assert(report.by_topic@.subrange(0, report.by_topic@.len() as int) =~= report.by_topic@);
    }
    push_counts(&mut out, "total", report.pass, report.fail);
    let ghost head = out@;
    let mut k: usize = 0;
    while k < report.mismatches.len()
        invariant
            k <= report.mismatches@.len(),
            out@ == head + mismatch_lines(report.mismatches@.subrange(0, k as int)),
        decreases report.mismatches@.len() - k,
    {
        proof {
            assert(report.mismatches@.subrange(0, k + 1).drop_last()
                =~= report.mismatches@.subrange(0, k as int));
        }
        let m = &report.mismatches[k];
        out.append("mismatch ");
        push_u64(&mut out, m.snippet_id);
        out.append(": ");
        out.append(m.diagnostic.as_str());
        out.append("\n");
        proof {
            assert(out@ =~= head + mismatch_lines(report.mismatches@.subrange(0, k + 1)));
        }
        k += 1;
    }
    proof {
        assert(report.mismatches@.subrange(0, report.mismatches@.len() as int)
            =~= report.mismatches@);
        assert(out@ =~= render_text(*report));
    }
    out
}

} // verus!
