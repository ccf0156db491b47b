//! The expectation evaluator: judges one observed toolchain outcome against
//! a snippet's declared expectation. The toolchain itself (compiling a unit
//! of source, running the artifact, capturing stdout and the exit status) is
//! an external capability; its observation arrives here as a plain value, so
//! the judgment is verified for every possible observation.

use vstd::prelude::*;
use crate::catalog::{ids_unique, load, ExpectedOutcome, LoadError, Snippet, Topic};

verus! {

/// What the external toolchain observed for one snippet. A toolchain that
/// failed to even start is captured by the caller as `CompileFail` or
/// `RuntimeFail`, never propagated: the harness goes on with the rest.
#[derive(Debug)]
pub enum ActualOutcome {
    /// Compilation failed, for any reason.
    CompileFail,
    /// Compilation succeeded and execution was not attempted.
    CompiledNotRun,
    /// Compilation succeeded and execution exited zero; the captured stdout.
    RanOk(String),
    /// Compilation succeeded and execution terminated abnormally.
    RuntimeFail,
    /// Execution was force-terminated after the configured bound.
    TimedOut,
}

/// Which capability the toolchain must exercise for a given expectation:
/// expectations about compilation alone never run the artifact.
#[derive(Clone, Copy, Debug, PartialEq, Eq, Structural)]
pub enum ToolchainAction {
    CompileOnly,
    CompileAndRun,
}

/// The verdict for one snippet: which snippet, what was observed, whether
/// the observation matches the declared expectation, and a diagnostic.
#[derive(Debug)]
pub struct EvaluationResult {
    pub snippet_id: u64,
    pub topic: Topic,
    pub actual: ActualOutcome,
    pub matched: bool,
    pub diagnostic: String,
}

/// The action a snippet's expectation calls for.
pub open spec fn spec_required_action(expected: ExpectedOutcome) -> ToolchainAction {
    match expected {
        ExpectedOutcome::CompilesRuns => ToolchainAction::CompileAndRun,
        ExpectedOutcome::CompilesOnly => ToolchainAction::CompileOnly,
        ExpectedOutcome::CompileError => ToolchainAction::CompileOnly,
        ExpectedOutcome::RuntimePanic => ToolchainAction::CompileAndRun,
    }
}

/// Tells the caller whether a snippet must only be compiled or also run.
pub fn required_action(expected: ExpectedOutcome) -> (a: ToolchainAction)
    ensures
        a == spec_required_action(expected),
{
    match expected {
        ExpectedOutcome::CompilesRuns => ToolchainAction::CompileAndRun,
        ExpectedOutcome::CompilesOnly => ToolchainAction::CompileOnly,
        ExpectedOutcome::CompileError => ToolchainAction::CompileOnly,
        ExpectedOutcome::RuntimePanic => ToolchainAction::CompileAndRun,
    }
}

/// Whether an observation satisfies an expectation:
/// - `CompileError` matches exactly the observations where compilation
///   failed, whatever the reason;
/// - `CompilesOnly` matches any observation that shows the source compiled;
/// - `CompilesRuns` matches a zero-status run, and when an expected stdout
///   is declared, only a run whose captured stdout equals it exactly;
/// - `RuntimePanic` matches exactly an abnormal termination.
/// A timed-out observation is a timeout failure and matches no expectation,
/// even though it shows the source compiled.
pub open spec fn outcome_matches(
    expected: ExpectedOutcome,
    expected_stdout: Option<String>,
    actual: ActualOutcome,
) -> bool {
    match expected {
        ExpectedOutcome::CompileError => actual is CompileFail,
        ExpectedOutcome::CompilesOnly => match actual {
            ActualOutcome::CompileFail => false,
            ActualOutcome::TimedOut => false,
            _ => true,
        },
        ExpectedOutcome::CompilesRuns => match actual {
            ActualOutcome::RanOk(out) => match expected_stdout {
                Some(want) => out@ == want@,
                None => true,
            },
            _ => false,
        },
        ExpectedOutcome::RuntimePanic => actual is RuntimeFail,
    }
}

/// The verdict [`evaluate`] returns for a snippet, an observation and a
/// diagnostic.
pub open spec fn spec_evaluate(
    snippet: Snippet,
    actual: ActualOutcome,
    diagnostic: String,
) -> EvaluationResult {
    EvaluationResult {
        snippet_id: snippet.id,
        topic: snippet.topic,
        actual: actual,
        matched: outcome_matches(snippet.expected, snippet.expected_stdout, actual),
        diagnostic: diagnostic,
    }
}

/// Judges one observed outcome against one snippet's expectation. Reads the
/// snippet only; the verdict records the snippet's id and topic, the
/// observation, and the caller's diagnostic text.
pub fn evaluate(snippet: &Snippet, actual: ActualOutcome, diagnostic: String) -> (r:
    EvaluationResult)
    ensures
        r == spec_evaluate(*snippet, actual, diagnostic),
        r.matched == outcome_matches(snippet.expected, snippet.expected_stdout, actual),
{
    let matched: bool = match snippet.expected {
        ExpectedOutcome::CompileError => matches!(actual, ActualOutcome::CompileFail),
        ExpectedOutcome::CompilesOnly => match actual {
            ActualOutcome::CompileFail => false,
            ActualOutcome::TimedOut => false,
            _ => true,
        },
        ExpectedOutcome::CompilesRuns => match &actual {
            ActualOutcome::RanOk(out) => match &snippet.expected_stdout {
                Some(want) => *out == *want,
                None => true,
            },
            _ => false,
        },
        ExpectedOutcome::RuntimePanic => matches!(actual, ActualOutcome::RuntimeFail),
    };
    EvaluationResult {
        snippet_id: snippet.id,
        topic: snippet.topic,
        actual,
        matched,
        diagnostic,
    }
}

/// Judges every snippet against its observation, in order. The i-th
/// observation (with its diagnostic) belongs to the i-th snippet; each
/// snippet is judged independently and the store is only read.
pub fn evaluate_all(snippets: &Vec<Snippet>, observations: Vec<(ActualOutcome, String)>) -> (results:
    Vec<EvaluationResult>)
    requires
        observations@.len() == snippets@.len(),
    ensures
        results@.len() == snippets@.len(),
        forall|i: int|
            0 <= i < snippets@.len() ==> results@[i] == spec_evaluate(
                snippets@[i],
                observations@[i].0,
                observations@[i].1,
            ),
{
    let ghost all_obs = observations@;
    let mut observations = observations;
    let mut results: Vec<EvaluationResult> = Vec::new();
    let mut i: usize = 0;
    while i < snippets.len()
        invariant
            all_obs.len() == snippets@.len(),
            i <= snippets@.len(),
            observations@ == all_obs.subrange(i as int, all_obs.len() as int),
            results@.len() == i,
            forall|q: int|
                0 <= q < i ==> results@[q] == spec_evaluate(
                    snippets@[q],
                    all_obs[q].0,
                    all_obs[q].1,
                ),
        decreases snippets@.len() - i,
    {
        let (actual, diagnostic) = observations.remove(0);
        results.push(evaluate(&snippets[i], actual, diagnostic));
        proof {
            assert(all_obs.subrange(i as int, all_obs.len() as int).remove(0)
                =~= all_obs.subrange(i + 1, all_obs.len() as int));
        }
        i += 1;
    }
    results
}

/// One full harness run over a validated store: loads the entries and, only
/// when every id is unique, judges each snippet against its observation. A
/// catalog with a duplicated id fails with the load error and produces no
/// verdict at all.
pub fn run_harness(entries: Vec<Snippet>, observations: Vec<(ActualOutcome, String)>) -> (r: Result<
    Vec<EvaluationResult>,
    LoadError,
>)
    requires
        observations@.len() == entries@.len(),
    ensures
        r is Ok <==> ids_unique(entries@),
        r matches Ok(results) ==> results@.len() == entries@.len() && forall|i: int|
            0 <= i < entries@.len() ==> results@[i] == spec_evaluate(
                entries@[i],
                observations@[i].0,
                observations@[i].1,
            ),
        r matches Err(e) ==> (e matches LoadError::DuplicateId(d) && exists|i: int, j: int|
            0 <= i < j < entries@.len() && entries@[i].id == d && entries@[j].id == d),
{
    let catalog = match load(entries) {
        Ok(c) => c,
        Err(e) => {
            return Err(e);
        },
    };
    Ok(evaluate_all(&catalog.snippets, observations))
}

/// A snippet declared to fail compilation is matched exactly by a failed
/// compilation: any compile failure counts, and any observation that shows
/// the source compiled (or timed out) is a mismatch.
pub proof fn lemma_compile_error_expectation(
    expected_stdout: Option<String>,
    actual: ActualOutcome,
)
    ensures
        outcome_matches(ExpectedOutcome::CompileError, expected_stdout, actual) <==> actual
            is CompileFail,
{
}

/// A snippet declared to compile and run, with a declared stdout, is matched
/// exactly by an observation that compiled, exited zero, and whose captured
/// stdout equals the declared one character for character.
pub proof fn lemma_compiles_runs_expectation(want: String, actual: ActualOutcome)
    ensures
        outcome_matches(ExpectedOutcome::CompilesRuns, Some(want), actual) <==> (actual
            matches ActualOutcome::RanOk(out) && out@ == want@),
{
}

/// A timed-out observation is recorded as a failure whatever the
/// expectation: it never matches.
pub proof fn lemma_timeout_never_matches(
    expected: ExpectedOutcome,
    expected_stdout: Option<String>,
)
    ensures
        !outcome_matches(expected, expected_stdout, ActualOutcome::TimedOut),
{
}

} // verus!
