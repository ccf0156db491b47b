//! The snippet store: labeled example snippets with a declared expected
//! outcome, loaded into an immutable catalog whose ids are unique.

use vstd::prelude::*;

verus! {

/// The fixed set of language-feature topics a snippet can belong to.
#[derive(Clone, Copy, Debug, PartialEq, Eq, Structural)]
pub enum Topic {
    Enums,
    Structs,
    Traits,
    Generics,
    Lifetimes,
    Strings,
    Vectors,
    HashMaps,
    ControlFlow,
}

/// How a snippet is declared to behave when it is compiled and run.
#[derive(Clone, Copy, Debug, PartialEq, Eq, Structural)]
pub enum ExpectedOutcome {
    /// Must compile and execute with exit status zero.
    CompilesRuns,
    /// Must compile; execution is not attempted.
    CompilesOnly,
    /// Compilation must fail; any diagnostic counts.
    CompileError,
    /// Must compile, then execution must terminate abnormally.
    RuntimePanic,
}

/// One labeled example: source text plus the declared expectation.
/// Immutable once loaded into a [`Catalog`].
#[derive(Debug)]
pub struct Snippet {
    pub id: u64,
    pub topic: Topic,
    pub source: String,
    pub expected: ExpectedOutcome,
    /// Compared against captured stdout only when `expected` is
    /// [`ExpectedOutcome::CompilesRuns`].
    pub expected_stdout: Option<String>,
}

impl Clone for Snippet {
    /// Cloning preserves the snippet exactly.
    fn clone(&self) -> (r: Self)
        ensures
            r == self,
    {
        Snippet {
            id: self.id,
            topic: self.topic,
            source: self.source.clone(),
            expected: self.expected,
            expected_stdout: match &self.expected_stdout {
                Some(s) => Some(s.clone()),
                None => None,
            },
        }
    }
}

/// Loading fails when a record of the catalog cannot be read, or when two
/// snippets share an id; a duplicated id is reported.
#[derive(Clone, Copy, Debug, PartialEq, Eq, Structural)]
pub enum LoadError {
    Malformed,
    DuplicateId(u64),
}

/// Every pair of distinct snippets carries distinct ids.
pub open spec fn ids_unique(s: Seq<Snippet>) -> bool {
    forall|i: int, j: int| 0 <= i < j < s.len() ==> s[i].id != s[j].id
}

/// An ordered, validated sequence of snippets with pairwise distinct ids.
pub struct Catalog {
    pub snippets: Vec<Snippet>,
}

impl Catalog {
    /// The catalog invariant: ids are pairwise distinct.
    pub open spec fn wf(self) -> bool {
        ids_unique(self.snippets@)
    }
}

/// Validates the given snippets into a catalog. Succeeds exactly when no two
/// entries share an id; otherwise reports one duplicated id and no catalog
/// (and hence no evaluation) is produced.
pub fn load(entries: Vec<Snippet>) -> (r: Result<Catalog, LoadError>)
    ensures
        r is Ok <==> ids_unique(entries@),
        r matches Ok(c) ==> c.snippets@ == entries@ && c.wf(),
        r matches Err(e) ==> (e matches LoadError::DuplicateId(d) && exists|i: int, j: int|
            0 <= i < j < entries@.len() && entries@[i].id == d && entries@[j].id == d),
{
    let n = entries.len();
    let mut i: usize = 0;
    while i < n
        invariant
            n == entries@.len(),
            i <= n,
            forall|a: int, b: int| 0 <= a < b < n && a < i ==> entries@[a].id != entries@[b].id,
        decreases n - i,
    {
        let mut j: usize = i + 1;
        while j < n
            invariant
                n == entries@.len(),
                i < n,
                i < j <= n,
                forall|b: int| i < b < j ==> entries@[i as int].id != entries@[b].id,
            decreases n - j,
        {
            if entries[i].id == entries[j].id {
                return Err(LoadError::DuplicateId(entries[i].id));
            }
            j += 1;
        }
        i += 1;
    }
    Ok(Catalog { snippets: entries })
}

} // verus!
