//! Track a set of local git working copies under stable keys and drive
//! batched operations across them: safe updates (stash, branch switch,
//! rebase, restore), status reports, and arbitrary commands.
//!
//! The crate holds the decision logic only: the registry of tracked
//! repositories, descriptor construction, the per-repository update state
//! machine, command-outcome interpretation, and batch-report aggregation.
//! All effects (process spawning, git queries, file and network I/O) are
//! performed by an unverified driver that feeds observations back in as
//! plain values.

pub mod batch;
pub mod command;
pub mod config;
pub mod error;
pub mod order;
pub mod repo;
pub mod update;
