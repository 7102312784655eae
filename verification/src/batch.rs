//! Aggregation for batch operations.
//!
//! A batch runs one task per tracked repository — update, status, or an
//! arbitrary command — and every task ends as a [`TaskResult`]: a
//! labelled output block on success (possibly none, for a deliberately
//! skipped task), or one library error. Tasks are independent; a failure
//! belongs to its own repository only. [`merge_results`] folds the
//! completed tasks, in the order they finished, into one [`BatchReport`]
//! that keeps every success and every failure, and flags the batch as
//! failed exactly when failures exist and reporting them is not
//! suppressed.

use vstd::prelude::*;

use crate::command::ExecutionResult;
use crate::command::collect_output;
use crate::command::output_block;
use crate::command::describe_invocation;
use crate::command::invocation_text;
use crate::error::RepoRsError;
use crate::update::UpdateMachine;
use crate::update::UpdatePhase;
use crate::update::failure_to_error;
use crate::update::update_error_matches;
use vstd::utf8::encode_utf8;

verus! {

/// How one repository's task ended: its key, and either the labelled
/// output block it produced (`None` for a task that was deliberately
/// skipped or had no output) or the error that stopped it.
#[derive(Debug)]
pub struct TaskResult {
    pub key: String,
    pub outcome: Result<Option<Vec<u8>>, RepoRsError>,
}

/// One successful task in the aggregate report.
#[derive(Debug)]
pub struct TaskSuccess {
    pub key: String,
    pub block: Option<Vec<u8>>,
}

/// The aggregate outcome of one batch: every success and every failure,
/// in completion order, and whether the batch as a whole counts as
/// failed.
#[derive(Debug)]
pub struct BatchReport {
    pub successes: Vec<TaskSuccess>,
    pub failures: Vec<RepoRsError>,
    pub failed: bool,
}

/// The successes among `rs`, in order.
pub open spec fn successes_of(rs: Seq<TaskResult>) -> Seq<TaskSuccess>
    decreases rs.len(),
{
    if rs.len() == 0 {
        Seq::empty()
    } else {
        match rs.first().outcome {
            Result::Ok(block) => seq![TaskSuccess { key: rs.first().key, block }]
                + successes_of(rs.drop_first()),
            Result::Err(_) => successes_of(rs.drop_first()),
        }
    }
}

/// The failures among `rs`, in order.
pub open spec fn failures_of(rs: Seq<TaskResult>) -> Seq<RepoRsError>
    decreases rs.len(),
{
    if rs.len() == 0 {
        Seq::empty()
    } else {
        match rs.first().outcome {
            Result::Ok(_) => failures_of(rs.drop_first()),
            Result::Err(e) => seq![e] + failures_of(rs.drop_first()),
        }
    }
}

/// Merges the completed tasks of one batch into its report: every
/// success and every failure is kept, in the given order, and the batch
/// is failed exactly when some task failed and failure reporting is not
/// suppressed.
pub fn merge_results(results: Vec<TaskResult>, suppress_failures: bool) -> (report: BatchReport)
    ensures
        report.successes@ == successes_of(results@),
        report.failures@ == failures_of(results@),
        report.failed == (!suppress_failures && failures_of(results@).len() > 0),
{
    let ghost all = results@;
    let mut remaining = results;
    let mut successes: Vec<TaskSuccess> = Vec::new();
    let mut failures: Vec<RepoRsError> = Vec::new();
    while remaining.len() > 0
        invariant
            successes@ + successes_of(remaining@) == successes_of(all),
            failures@ + failures_of(remaining@) == failures_of(all),
        decreases remaining.len(),
    {
        let ghost before = remaining@;
        let task = remaining.remove(0);
        proof {
            assert(before.first() == task);
            assert(before.drop_first() =~= remaining@);
        }
        match task.outcome {
            Result::Ok(block) => {
                successes.push(TaskSuccess { key: task.key, block });
                proof {
                    assert(successes@ + successes_of(remaining@) =~= successes_of(all));
                }
            },
            Result::Err(e) => {
                failures.push(e);
                proof {
                    assert(failures@ + failures_of(remaining@) =~= failures_of(all));
                }
            },
        }
    }
    proof {
        assert(successes@ + successes_of(remaining@) =~= successes@);
        assert(failures@ + failures_of(remaining@) =~= failures@);
    }
    let failed = !suppress_failures && failures.len() > 0;
    BatchReport { successes, failures, failed }
}

/// Failure isolation: a task that succeeded stands in the merged
/// successes at its own position, whatever became of every other task.
pub proof fn lemma_failure_isolation(rs: Seq<TaskResult>, i: int)
    requires
        0 <= i < rs.len(),
        rs[i].outcome is Ok,
    ensures
        exists|j: int|
            0 <= j < successes_of(rs).len() && #[trigger] successes_of(rs)[j].key == rs[i].key
                && Result::<Option<Vec<u8>>, RepoRsError>::Ok(successes_of(rs)[j].block)
                == rs[i].outcome,
    decreases rs.len(),
{
    if i == 0 {
        let s = successes_of(rs);
        assert(s[0].key == rs[0].key && Result::<Option<Vec<u8>>, RepoRsError>::Ok(s[0].block)
            == rs[0].outcome);
    } else {
        lemma_failure_isolation(rs.drop_first(), i - 1);
        let rest = successes_of(rs.drop_first());
        let j = choose|j: int|
            0 <= j < rest.len() && #[trigger] rest[j].key == rs.drop_first()[i - 1].key
                && Result::<Option<Vec<u8>>, RepoRsError>::Ok(rest[j].block) == rs.drop_first()[
            i - 1].outcome;
        match rs.first().outcome {
            Result::Ok(_) => {
                let s = successes_of(rs);
                assert(s[j + 1] == rest[j]);
            },
            Result::Err(_) => {
                assert(successes_of(rs)[j] == rest[j]);
            },
        }
    }
}

/// Every task is accounted for: the merged successes and failures
/// together carry exactly one entry per task.
pub proof fn lemma_batch_accounts_for_every_task(rs: Seq<TaskResult>)
    ensures
        successes_of(rs).len() + failures_of(rs).len() == rs.len(),
    decreases rs.len(),
{
    if rs.len() > 0 {
        lemma_batch_accounts_for_every_task(rs.drop_first());
    }
}

/// Whether a status task must run `git status`: always when every
/// repository is to be reported, otherwise only on a dirty tree.
pub fn status_should_run(only_if_dirty: bool, dirty: bool) -> (r: bool)
    ensures
        r == (!only_if_dirty || dirty),
{
    !only_if_dirty || dirty
}

/// Finishes one command task: a zero exit code yields the repository's
/// labelled output block (none when the command printed nothing), and a
/// non-zero exit code yields `CommandFailed` carrying the rendered
/// invocation and the full captured output.
pub fn run_task_outcome(key: &String, program: &str, args: &Vec<String>, result: ExecutionResult) -> (t:
    TaskResult)
    ensures
        t.key@ == key@,
        result.is_success() ==> (t.outcome matches Ok(block) && (match block {
            Option::Some(b) => output_block(encode_utf8(key@), result.stdout@, result.stderr@)
                == Option::Some(b@),
            Option::None => output_block(encode_utf8(key@), result.stdout@, result.stderr@) is None,
        })),
        !result.is_success() ==> (t.outcome matches Err(e) && (e
            matches RepoRsError::CommandFailed(k, inv, r) && k@ == key@ && inv@ == invocation_text(
            program@,
            args.deep_view(),
        ) && r == result)),
{
    if result.exit_code == 0 {
        let block = collect_output(key.as_str(), &result);
        TaskResult { key: key.clone(), outcome: Result::Ok(block) }
    } else {
        let invocation = describe_invocation(program, args);
        TaskResult {
            key: key.clone(),
            outcome: Result::Err(RepoRsError::CommandFailed(key.clone(), invocation, result)),
        }
    }
}

/// Finishes one update task from its terminal machine: a done run
/// yields the repository's labelled block of the rebase output, a failed
/// run yields the library error for its failure, attributed to the
/// repository key.
pub fn finish_update(m: UpdateMachine) -> (t: TaskResult)
    requires
        m.wf(),
        m.phase is Done || m.phase is Failed,
    ensures
        t.key == m.key,
        m.phase is Done ==> (t.outcome matches Ok(block) && (match block {
            Option::Some(b) => output_block(
                encode_utf8(m.key@),
                m.output.unwrap().stdout@,
                m.output.unwrap().stderr@,
            ) == Option::Some(b@),
            Option::None => output_block(
                encode_utf8(m.key@),
                m.output.unwrap().stdout@,
                m.output.unwrap().stderr@,
            ) is None,
        })),
        m.phase is Failed ==> (t.outcome matches Err(e) && update_error_matches(
            m.key@,
            m.failure.unwrap(),
            e,
        )),
{
    match m.phase {
        UpdatePhase::Done => {
            let out = match m.output {
                Option::Some(o) => o,
                Option::None => unreached(),
            };
            let block = collect_output(m.key.as_str(), &out);
            TaskResult { key: m.key, outcome: Result::Ok(block) }
        },
        UpdatePhase::Failed => {
            let f = match m.failure {
                Option::Some(f) => f,
                Option::None => unreached(),
            };
            let e = failure_to_error(&m.key, f);
            TaskResult { key: m.key, outcome: Result::Err(e) }
        },
        _ => unreached(),
    }
}

} // verus!
