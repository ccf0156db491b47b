//! Aggregation of evaluation verdicts into a report: overall and per-topic
//! pass/fail tallies plus the list of mismatches, grouped by topic.

use vstd::prelude::*;
use crate::catalog::{Snippet, Topic};
use crate::evaluate::EvaluationResult;

verus! {

/// Pass/fail tally for one topic.
#[derive(Clone, Copy, Debug)]
pub struct TopicTally {
    pub topic: Topic,
    pub pass: usize,
    pub fail: usize,
}

/// One mismatch, kept for the rendered listing.
#[derive(Debug)]
pub struct Mismatch {
    pub snippet_id: u64,
    pub topic: Topic,
    pub diagnostic: String,
}

/// The aggregated verdicts of one harness run. Created once per run from the
/// evaluation results and discarded after rendering.
#[derive(Debug)]
pub struct Report {
    pub total: usize,
    pub pass: usize,
    pub fail: usize,
    /// One tally per topic, in the fixed topic order, covering every topic.
    pub by_topic: Vec<TopicTally>,
    /// Every mismatched result, grouped by topic in the fixed topic order,
    /// in input order within a topic.
    pub mismatches: Vec<Mismatch>,
}

/// The fixed ordering of topics used for grouping.
pub open spec fn topic_order() -> Seq<Topic> {
    seq![
        Topic::Enums,
        Topic::Structs,
        Topic::Traits,
        Topic::Generics,
        Topic::Lifetimes,
        Topic::Strings,
        Topic::Vectors,
        Topic::HashMaps,
        Topic::ControlFlow,
    ]
}

/// Every topic in the fixed grouping order.
pub fn all_topics() -> (v: Vec<Topic>)
    ensures
        v@ == topic_order(),
{
    let v: Vec<Topic> = vec![
        Topic::Enums,
        Topic::Structs,
        Topic::Traits,
        Topic::Generics,
        Topic::Lifetimes,
        Topic::Strings,
        Topic::Vectors,
        Topic::HashMaps,
        Topic::ControlFlow,
    ];
    proof {
        assert(v@ =~= topic_order());
    }
    v
}

/// How many of the given results matched their expectation.
pub open spec fn count_matched(rs: Seq<EvaluationResult>) -> int
    decreases rs.len(),
{
    if rs.len() == 0 {
        0
    } else {
        count_matched(rs.drop_last()) + if rs.last().matched {
            1int
        } else {
            0int
        }
    }
}

/// How many of the given results belong to the given topic.
pub open spec fn count_topic(rs: Seq<EvaluationResult>, t: Topic) -> int
    decreases rs.len(),
{
    if rs.len() == 0 {
        0
    } else {
        count_topic(rs.drop_last(), t) + if rs.last().topic == t {
            1int
        } else {
            0int
        }
    }
}

/// How many of the given results belong to the given topic and matched.
pub open spec fn count_topic_matched(rs: Seq<EvaluationResult>, t: Topic) -> int
    decreases rs.len(),
{
    if rs.len() == 0 {
        0
    } else {
        count_topic_matched(rs.drop_last(), t) + if rs.last().topic == t && rs.last().matched {
            1int
        } else {
            0int
        }
    }
}

/// The mismatched results of one topic, in input order, as mismatch records.
pub open spec fn topic_mismatches(rs: Seq<EvaluationResult>, t: Topic) -> Seq<Mismatch> {
    rs.filter(|r: EvaluationResult| r.topic == t && !r.matched).map_values(
        |r: EvaluationResult|
            Mismatch { snippet_id: r.snippet_id, topic: r.topic, diagnostic: r.diagnostic },
    )
}

/// The full mismatch listing: topics in the fixed order, input order within
/// each topic.
pub open spec fn grouped_mismatches(rs: Seq<EvaluationResult>, topics: Seq<Topic>) -> Seq<Mismatch>
    decreases topics.len(),
{
    if topics.len() == 0 {
        Seq::empty()
    } else {
        grouped_mismatches(rs, topics.drop_last()) + topic_mismatches(rs, topics.last())
    }
}

/// The count of matched results never exceeds the count of all results, and
/// a count over a topic never exceeds the count over all of them.
pub proof fn lemma_count_bounds(rs: Seq<EvaluationResult>, t: Topic)
    ensures
        0 <= count_matched(rs) <= rs.len(),
        0 <= count_topic_matched(rs, t) <= count_topic(rs, t) <= rs.len(),
    decreases rs.len(),
{
    if rs.len() > 0 {
        lemma_count_bounds(rs.drop_last(), t);
    }
}

/// Pass and fail counts always partition the results: for any sequence of
/// evaluation results, the number that matched plus the number that did not
/// equals the total, and likewise within each topic.
pub proof fn lemma_counts_partition(rs: Seq<EvaluationResult>, t: Topic)
    ensures
        count_matched(rs) + (rs.len() - count_matched(rs)) == rs.len(),
        count_topic_matched(rs, t) + (count_topic(rs, t) - count_topic_matched(rs, t))
            == count_topic(rs, t),
        0 <= count_matched(rs) <= rs.len(),
        0 <= count_topic_matched(rs, t) <= count_topic(rs, t) <= rs.len(),
{
    lemma_count_bounds(rs, t);
}

/// Counts how many results matched.
fn count_passes(results: &Vec<EvaluationResult>) -> (n: usize)
    ensures
        n == count_matched(results@),
{
    let mut n: usize = 0;
    let mut i: usize = 0;
    while i < results.len()
        invariant
            i <= results@.len(),
            n == count_matched(results@.subrange(0, i as int)),
            n <= i,
        decreases results@.len() - i,
    {
        proof {
            assert(results@.subrange(0, i + 1).drop_last() =~= results@.subrange(0, i as int));
        }
        if results[i].matched {
            n += 1;
        }
        i += 1;
    }
    proof {
        assert(results@.subrange(0, results@.len() as int) =~= results@);
    }
    n
}

/// Counts, for one topic, how many results belong to it and how many of
/// those matched.
fn tally_topic(results: &Vec<EvaluationResult>, t: Topic) -> (tally: TopicTally)
    ensures
        tally.topic == t,
        tally.pass == count_topic_matched(results@, t),
        tally.pass + tally.fail == count_topic(results@, t),
{
    let mut pass: usize = 0;
    let mut seen: usize = 0;
    let mut i: usize = 0;
    while i < results.len()
        invariant
            i <= results@.len(),
            pass == count_topic_matched(results@.subrange(0, i as int), t),
            seen == count_topic(results@.subrange(0, i as int), t),
            pass <= seen <= i,
        decreases results@.len() - i,
    {
        proof {
            assert(results@.subrange(0, i + 1).drop_last() =~= results@.subrange(0, i as int));
        }
        if results[i].topic == t {
            seen += 1;
            if results[i].matched {
                pass += 1;
            }
        }
        i += 1;
    }
    proof {
        assert(results@.subrange(0, results@.len() as int) =~= results@);
    }
    TopicTally { topic: t, pass, fail: seen - pass }
}

/// Collects the mismatches of one topic, in input order.
fn collect_topic_mismatches(results: &Vec<EvaluationResult>, t: Topic) -> (ms: Vec<Mismatch>)
    ensures
        ms@ == topic_mismatches(results@, t),
{
    let mut ms: Vec<Mismatch> = Vec::new();
    let mut i: usize = 0;
    proof {
        assert(results@.subrange(0, 0).filter(|r: EvaluationResult| r.topic == t && !r.matched)
            =~= Seq::<EvaluationResult>::empty());
    }
    while i < results.len()
        invariant
            i <= results@.len(),
            ms@ == topic_mismatches(results@.subrange(0, i as int), t),
        decreases results@.len() - i,
    {
        proof {
            let pred = |r: EvaluationResult| r.topic == t && !r.matched;
            let prefix = results@.subrange(0, i as int);
            let next = results@.subrange(0, i + 1);
            assert(next.drop_last() =~= prefix);
            assert(next.filter(pred) =~= if pred(results@[i as int]) {
                prefix.filter(pred).push(results@[i as int])
            } else {
                prefix.filter(pred)
            }) by {
                reveal_with_fuel(Seq::filter, 2);
            }
        }
        let r = &results[i];
        if !r.matched && r.topic == t {
            ms.push(
                Mismatch {
                    snippet_id: r.snippet_id,
                    topic: r.topic,
                    diagnostic: r.diagnostic.clone(),
                },
            );
        }
        i += 1;
    }
    proof {
        assert(results@.subrange(0, results@.len() as int) =~= results@);
    }
    ms
}

/// Aggregates evaluation verdicts into a report: the pass and fail counts
/// partition the results, each topic's tally counts exactly the results of
/// that topic, and the mismatch listing holds exactly the mismatched
/// results, grouped by topic in the fixed order.
pub fn aggregate(results: &Vec<EvaluationResult>) -> (report: Report)
    ensures
        report.total == results@.len(),
        report.pass == count_matched(results@),
        report.pass + report.fail == report.total,
        report.by_topic@.len() == topic_order().len(),
        forall|k: int|
            0 <= k < topic_order().len() ==> {
                &&& (#[trigger] report.by_topic@[k]).topic == topic_order()[k]
                &&& report.by_topic@[k].pass == count_topic_matched(results@, topic_order()[k])
                &&& report.by_topic@[k].pass + report.by_topic@[k].fail == count_topic(
                    results@,
                    topic_order()[k],
                )
            },
        report.mismatches@ == grouped_mismatches(results@, topic_order()),
{
    let total = results.len();
    let pass = count_passes(results);
    proof {
        lemma_count_bounds(results@, Topic::Enums);
    }
    let fail = total - pass;
    let topics = all_topics();
    let mut by_topic: Vec<TopicTally> = Vec::new();
    let mut mismatches: Vec<Mismatch> = Vec::new();
    let mut k: usize = 0;
    while k < topics.len()
        invariant
            topics@ == topic_order(),
            k <= topics@.len(),
            by_topic@.len() == k,
            forall|q: int|
                0 <= q < k ==> {
                    &&& (#[trigger] by_topic@[q]).topic == topic_order()[q]
                    &&& by_topic@[q].pass == count_topic_matched(results@, topic_order()[q])
                    &&& by_topic@[q].pass + by_topic@[q].fail == count_topic(
                        results@,
                        topic_order()[q],
                    )
                },
            mismatches@ == grouped_mismatches(results@, topic_order().subrange(0, k as int)),
        decreases topics@.len() - k,
    {
        proof {
            let sub = topic_order().subrange(0, k + 1);
            assert(sub.drop_last() =~= topic_order().subrange(0, k as int));
        }
        let t = topics[k];
        by_topic.push(tally_topic(results, t));
        let mut ms = collect_topic_mismatches(results, t);
        mismatches.append(&mut ms);
        k += 1;
    }
    proof {
        assert(topic_order().subrange(0, topic_order().len() as int) =~= topic_order());
    }
    Report { total, pass, fail, by_topic, mismatches }
}

/// True exactly when every result matched its expectation; the harness exit
/// status is success exactly then.
pub fn all_matched(results: &Vec<EvaluationResult>) -> (ok: bool)
    ensures
        ok <==> count_matched(results@) == results@.len(),
        ok <==> forall|i: int| 0 <= i < results@.len() ==> (#[trigger] results@[i]).matched,
{
    let mut i: usize = 0;
    while i < results.len()
        invariant
            i <= results@.len(),
            count_matched(results@.subrange(0, i as int)) == i,
            forall|q: int| 0 <= q < i ==> (#[trigger] results@[q]).matched,
        decreases results@.len() - i,
    {
        proof {
            assert(results@.subrange(0, i + 1).drop_last() =~= results@.subrange(0, i as int));
        }
        if !results[i].matched {
            proof {
                lemma_count_bounds(results@, Topic::Enums);
                lemma_count_prefix_not_matched(results@, i as int);
            }
            return false;
        }
        i += 1;
    }
    proof {
        assert(results@.subrange(0, results@.len() as int) =~= results@);
    }
    true
}

/// If some result did not match, the matched count falls short of the total.
proof fn lemma_count_prefix_not_matched(rs: Seq<EvaluationResult>, i: int)
    requires
        0 <= i < rs.len(),
        !rs[i].matched,
    ensures
        count_matched(rs) < rs.len(),
    decreases rs.len(),
{
    if i == rs.len() - 1 {
        lemma_count_bounds(rs.drop_last(), Topic::Enums);
    } else {
        lemma_count_prefix_not_matched(rs.drop_last(), i);
    }
}

/// Filters a catalog's snippets down to one topic; with no filter the
/// snippets are kept as they are. Order is preserved.
pub fn filter_by_topic(snippets: &Vec<Snippet>, filter: Option<Topic>) -> (kept: Vec<Snippet>)
    ensures
        match filter {
            None => kept@ == snippets@,
            Some(t) => kept@ == snippets@.filter(|s: Snippet| s.topic == t),
        },
{
    match filter {
        None => {
            let mut kept: Vec<Snippet> = Vec::new();
            let mut i: usize = 0;
            while i < snippets.len()
                invariant
                    i <= snippets@.len(),
                    kept@ == snippets@.subrange(0, i as int),
                decreases snippets@.len() - i,
            {
                kept.push(snippets[i].clone());
                proof {
                    assert(kept@ =~= snippets@.subrange(0, i + 1));
                }
                i += 1;
            }
            proof {
                assert(snippets@.subrange(0, snippets@.len() as int) =~= snippets@);
            }
            kept
        },
        Some(t) => {
            let mut kept: Vec<Snippet> = Vec::new();
            let mut i: usize = 0;
            proof {
                assert(snippets@.subrange(0, 0).filter(|s: Snippet| s.topic == t)
                    =~= Seq::<Snippet>::empty());
            }
            while i < snippets.len()
                invariant
                    i <= snippets@.len(),
                    kept@ == snippets@.subrange(0, i as int).filter(|s: Snippet| s.topic == t),
                decreases snippets@.len() - i,
            {
                proof {
                    let pred = |s: Snippet| s.topic == t;
                    let prefix = snippets@.subrange(0, i as int);
                    let next = snippets@.subrange(0, i + 1);
                    assert(next.drop_last() =~= prefix);
                    assert(next.filter(pred) =~= if pred(snippets@[i as int]) {
                        prefix.filter(pred).push(snippets@[i as int])
                    } else {
                        prefix.filter(pred)
                    }) by {
                        reveal_with_fuel(Seq::filter, 2);
                    }
                }
                if snippets[i].topic == t {
                    kept.push(snippets[i].clone());
                }
                i += 1;
            }
            proof {
                assert(snippets@.subrange(0, snippets@.len() as int) =~= snippets@);
            }
            kept
        },
    }
}

} // verus!
