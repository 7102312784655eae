//! The error kinds of the library.
//!
//! Construction-time errors abort the single operation they belong to;
//! per-repository errors inside a batch stay isolated to that
//! repository's task. Every per-repository error carries the repository
//! key so that aggregated output can attribute it.

use vstd::prelude::*;

use crate::command::ExecutionResult;

verus! {

/// Every error the library reports.
#[derive(Debug, PartialEq, Eq)]
pub enum RepoRsError {
    /// The current branch of the named repository could not be determined
    /// (detached or otherwise unnamed HEAD).
    BranchUnknown(String),
    /// An external command returned a non-zero exit code; carries the
    /// repository key, the rendered invocation, and the captured output.
    CommandFailed(String, String, ExecutionResult),
    /// The repository has no remotes configured and none was specified.
    NoRemotes(String),
    /// The path is not at or inside a valid, non-empty working copy.
    NoRepo(String),
    /// The repository has local operations (merge, rebase, cherry-pick)
    /// in progress.
    OperationsInProgress(String),
    /// The repository has uncommitted changes and stashing was not
    /// permitted.
    RepoDirty(String),
    /// A tracking candidate collides with an existing entry by key or by
    /// path.
    DuplicateRepo(String),
    /// The persisted registry content is malformed.
    ConfigError(String),
    /// A filesystem or process-spawn failure outside the library's
    /// control.
    IOError(String),
}

} // verus!
