use rust_begin::catalog::{load, ExpectedOutcome, LoadError, Snippet, Topic};
use rust_begin::evaluate::{
    evaluate, evaluate_all, required_action, run_harness, ActualOutcome, ToolchainAction,
};
use rust_begin::render::{render, topic_name};
use rust_begin::report::{aggregate, all_matched, all_topics, filter_by_topic};

fn snippet(id: u64, topic: Topic, expected: ExpectedOutcome, stdout: Option<&str>) -> Snippet {
    Snippet {
        id,
        topic,
        source: String::from("fn main() {}"),
        expected,
        expected_stdout: stdout.map(String::from),
    }
}

#[test]
fn compile_error_matches_any_compile_failure() {
    let s = snippet(1, Topic::Enums, ExpectedOutcome::CompileError, None);
    let r = evaluate(&s, ActualOutcome::CompileFail, String::from("type mismatch"));
    assert!(r.matched);
    assert_eq!(r.snippet_id, 1);
    assert_eq!(r.diagnostic, "type mismatch");
}

#[test]
fn compile_error_rejects_unexpected_success() {
    let s = snippet(1, Topic::Enums, ExpectedOutcome::CompileError, None);
    let r = evaluate(&s, ActualOutcome::CompiledNotRun, String::new());
    assert!(!r.matched);
    let r = evaluate(&s, ActualOutcome::RanOk(String::from("hi")), String::new());
    assert!(!r.matched);
}

#[test]
fn compiles_runs_requires_exact_stdout() {
    let s = snippet(2, Topic::Strings, ExpectedOutcome::CompilesRuns, Some("ok"));
    let hit = evaluate(&s, ActualOutcome::RanOk(String::from("ok")), String::new());
    assert!(hit.matched);
    let miss = evaluate(&s, ActualOutcome::RanOk(String::from("ok\n")), String::new());
    assert!(!miss.matched);
    let fail = evaluate(&s, ActualOutcome::CompileFail, String::from("boom"));
    assert!(!fail.matched);
    let panic_run = evaluate(&s, ActualOutcome::RuntimeFail, String::new());
    assert!(!panic_run.matched);
}

#[test]
fn compiles_runs_without_declared_stdout_accepts_any_output() {
    let s = snippet(3, Topic::Vectors, ExpectedOutcome::CompilesRuns, None);
    let r = evaluate(&s, ActualOutcome::RanOk(String::from("whatever")), String::new());
    assert!(r.matched);
}

#[test]
fn compiles_only_matches_exactly_the_compiled_outcomes() {
    let s = snippet(4, Topic::Traits, ExpectedOutcome::CompilesOnly, None);
    assert!(evaluate(&s, ActualOutcome::CompiledNotRun, String::new()).matched);
    assert!(!evaluate(&s, ActualOutcome::CompileFail, String::new()).matched);
    assert!(!evaluate(&s, ActualOutcome::TimedOut, String::new()).matched);
}

#[test]
fn runtime_panic_matches_abnormal_termination_only() {
    let s = snippet(5, Topic::HashMaps, ExpectedOutcome::RuntimePanic, None);
    assert!(evaluate(&s, ActualOutcome::RuntimeFail, String::new()).matched);
    assert!(!evaluate(&s, ActualOutcome::RanOk(String::new()), String::new()).matched);
    assert!(!evaluate(&s, ActualOutcome::CompileFail, String::new()).matched);
}

#[test]
fn timeout_is_recorded_and_never_matches() {
    for expected in [
        ExpectedOutcome::CompilesRuns,
        ExpectedOutcome::CompilesOnly,
        ExpectedOutcome::CompileError,
        ExpectedOutcome::RuntimePanic,
    ] {
        let s = snippet(6, Topic::ControlFlow, expected, None);
        let r = evaluate(&s, ActualOutcome::TimedOut, String::from("timed out"));
        assert!(!r.matched);
        assert!(matches!(r.actual, ActualOutcome::TimedOut));
    }
}

#[test]
fn duplicate_id_fails_load_with_load_error() {
    let entries = vec![
        snippet(7, Topic::Enums, ExpectedOutcome::CompilesRuns, None),
        snippet(8, Topic::Structs, ExpectedOutcome::CompileError, None),
        snippet(7, Topic::Enums, ExpectedOutcome::CompilesOnly, None),
    ];
    let r = load(entries);
    assert!(matches!(r, Err(LoadError::DuplicateId(7))));
}

#[test]
fn duplicate_id_produces_zero_evaluation_results() {
    let entries = vec![
        snippet(7, Topic::Enums, ExpectedOutcome::CompilesRuns, None),
        snippet(7, Topic::Enums, ExpectedOutcome::CompileError, None),
    ];
    let observations = vec![
        (ActualOutcome::RanOk(String::new()), String::new()),
        (ActualOutcome::CompileFail, String::new()),
    ];
    let r = run_harness(entries, observations);
    assert!(matches!(r, Err(LoadError::DuplicateId(7))));
}

#[test]
fn unique_ids_load_in_order() {
    let entries = vec![
        snippet(1, Topic::Enums, ExpectedOutcome::CompilesRuns, None),
        snippet(2, Topic::Structs, ExpectedOutcome::CompileError, None),
    ];
    let catalog = load(entries).unwrap();
    assert_eq!(catalog.snippets.len(), 2);
    assert_eq!(catalog.snippets[0].id, 1);
    assert_eq!(catalog.snippets[1].id, 2);
}

#[test]
fn required_action_compiles_only_for_compilation_expectations() {
    assert_eq!(required_action(ExpectedOutcome::CompileError), ToolchainAction::CompileOnly);
    assert_eq!(required_action(ExpectedOutcome::CompilesOnly), ToolchainAction::CompileOnly);
    assert_eq!(required_action(ExpectedOutcome::CompilesRuns), ToolchainAction::CompileAndRun);
    assert_eq!(required_action(ExpectedOutcome::RuntimePanic), ToolchainAction::CompileAndRun);
}

#[test]
fn report_counts_sum_to_total() {
    let snippets = vec![
        snippet(1, Topic::Enums, ExpectedOutcome::CompileError, None),
        snippet(2, Topic::Enums, ExpectedOutcome::CompilesOnly, None),
        snippet(3, Topic::Generics, ExpectedOutcome::RuntimePanic, None),
        snippet(4, Topic::Generics, ExpectedOutcome::CompilesRuns, Some("x")),
    ];
    let observations = vec![
        (ActualOutcome::CompileFail, String::from("expected failure")),
        (ActualOutcome::CompileFail, String::from("unexpected failure")),
        (ActualOutcome::RuntimeFail, String::new()),
        (ActualOutcome::RanOk(String::from("y")), String::from("wrong stdout")),
    ];
    let results = run_harness(snippets, observations).unwrap();
    let report = aggregate(&results);
    assert_eq!(report.total, 4);
    assert_eq!(report.pass, 2);
    assert_eq!(report.fail, 2);
    assert_eq!(report.pass + report.fail, report.total);
    for tally in &report.by_topic {
        match tally.topic {
            Topic::Enums => {
                assert_eq!(tally.pass, 1);
                assert_eq!(tally.fail, 1);
            }
            Topic::Generics => {
                assert_eq!(tally.pass, 1);
                assert_eq!(tally.fail, 1);
            }
            _ => {
                assert_eq!(tally.pass, 0);
                assert_eq!(tally.fail, 0);
            }
        }
    }
    assert_eq!(report.mismatches.len(), 2);
    assert_eq!(report.mismatches[0].snippet_id, 2);
    assert_eq!(report.mismatches[0].diagnostic, "unexpected failure");
    assert_eq!(report.mismatches[1].snippet_id, 4);
    assert!(!all_matched(&results));
}

#[test]
fn counts_partition_for_filtered_topic_set() {
    let snippets = vec![
        snippet(1, Topic::Enums, ExpectedOutcome::CompileError, None),
        snippet(2, Topic::Strings, ExpectedOutcome::CompileError, None),
        snippet(3, Topic::Enums, ExpectedOutcome::CompilesOnly, None),
    ];
    let kept = filter_by_topic(&snippets, Some(Topic::Enums));
    assert_eq!(kept.len(), 2);
    assert_eq!(kept[0].id, 1);
    assert_eq!(kept[1].id, 3);
    let observations = vec![
        (ActualOutcome::CompileFail, String::new()),
        (ActualOutcome::CompileFail, String::new()),
    ];
    let results = run_harness(kept, observations).unwrap();
    let report = aggregate(&results);
    assert_eq!(report.total, 2);
    assert_eq!(report.pass + report.fail, 2);

    let everything = filter_by_topic(&snippets, None);
    assert_eq!(everything.len(), 3);
}

#[test]
fn scenario_three_snippets_all_behave_as_declared() {
    let snippets = vec![
        snippet(1, Topic::Strings, ExpectedOutcome::CompilesRuns, Some("ok")),
        snippet(2, Topic::Enums, ExpectedOutcome::CompileError, None),
        snippet(3, Topic::ControlFlow, ExpectedOutcome::RuntimePanic, None),
    ];
    let observations = vec![
        (ActualOutcome::RanOk(String::from("ok")), String::new()),
        (ActualOutcome::CompileFail, String::from("mismatched types")),
        (ActualOutcome::RuntimeFail, String::new()),
    ];
    let results = run_harness(snippets, observations).unwrap();
    let report = aggregate(&results);
    assert_eq!(report.pass, 3);
    assert_eq!(report.fail, 0);
    assert!(all_matched(&results));
    let text = render(&report);
    assert_eq!(
        text,
        "enums: 1 passed, 0 failed\n\
         strings: 1 passed, 0 failed\n\
         control flow: 1 passed, 0 failed\n\
         total: 3 passed, 0 failed\n"
    );
}

#[test]
fn scenario_unexpectedly_compiling_snippet_fails_its_check() {
    let snippets = vec![
        snippet(1, Topic::Strings, ExpectedOutcome::CompilesRuns, Some("ok")),
        snippet(2, Topic::Enums, ExpectedOutcome::CompileError, None),
        snippet(3, Topic::ControlFlow, ExpectedOutcome::RuntimePanic, None),
    ];
    let observations = vec![
        (ActualOutcome::RanOk(String::from("ok")), String::new()),
        (ActualOutcome::CompiledNotRun, String::from("compiled unexpectedly")),
        (ActualOutcome::RuntimeFail, String::new()),
    ];
    let results = run_harness(snippets, observations).unwrap();
    let report = aggregate(&results);
    assert_eq!(report.pass, 2);
    assert_eq!(report.fail, 1);
    assert!(!all_matched(&results));
    let text = render(&report);
    assert_eq!(
        text,
        "enums: 0 passed, 1 failed\n\
         strings: 1 passed, 0 failed\n\
         control flow: 1 passed, 0 failed\n\
         total: 2 passed, 1 failed\n\
         mismatch 2: compiled unexpectedly\n"
    );
}

#[test]
fn evaluate_all_keeps_order_and_length() {
    let snippets = vec![
        snippet(10, Topic::Lifetimes, ExpectedOutcome::CompilesOnly, None),
        snippet(11, Topic::Lifetimes, ExpectedOutcome::CompileError, None),
    ];
    let observations = vec![
        (ActualOutcome::CompiledNotRun, String::new()),
        (ActualOutcome::CompileFail, String::new()),
    ];
    let results = evaluate_all(&snippets, observations);
    assert_eq!(results.len(), 2);
    assert_eq!(results[0].snippet_id, 10);
    assert_eq!(results[1].snippet_id, 11);
    assert!(results[0].matched);
    assert!(results[1].matched);
}

#[test]
fn render_writes_decimal_counts_and_ids() {
    let snippets = vec![snippet(1234567890, Topic::Vectors, ExpectedOutcome::CompileError, None)];
    let observations = vec![(ActualOutcome::CompiledNotRun, String::from("oops"))];
    let results = run_harness(snippets, observations).unwrap();
    let report = aggregate(&results);
    let text = render(&report);
    assert_eq!(
        text,
        "vectors: 0 passed, 1 failed\n\
         total: 0 passed, 1 failed\n\
         mismatch 1234567890: oops\n"
    );
}

#[test]
fn topic_names_cover_the_fixed_order() {
    let names: Vec<&str> = all_topics().into_iter().map(topic_name).collect();
    assert_eq!(
        names,
        vec![
            "enums",
            "structs",
            "traits",
            "generics",
            "lifetimes",
            "strings",
            "vectors",
            "hash maps",
            "control flow"
        ]
    );
}
