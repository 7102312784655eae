use repo_rs::batch::finish_update;
use repo_rs::command::ExecutionResult;
use repo_rs::error::RepoRsError;
use repo_rs::repo::Repo;
use repo_rs::update::UpdateEvent;
use repo_rs::update::UpdateMachine;
use repo_rs::update::UpdateStep;

fn descriptor(key: &str, path: &str, branch: &str) -> Repo {
    Repo {
        key: key.to_string(),
        path: path.to_string(),
        remote: "origin".to_string(),
        branch: branch.to_string(),
    }
}

fn ok_result(stdout: &str) -> ExecutionResult {
    ExecutionResult { exit_code: 0, stdout: stdout.as_bytes().to_vec(), stderr: Vec::new() }
}

fn failed_result(code: i32, stderr: &str) -> ExecutionResult {
    ExecutionResult { exit_code: code, stdout: Vec::new(), stderr: stderr.as_bytes().to_vec() }
}

/// Drives one machine against a scripted repository and records every
/// step the machine requested.
fn drive(
    machine: &mut UpdateMachine,
    clean: bool,
    dirty: bool,
    head: Option<&str>,
    command_results: &mut Vec<ExecutionResult>,
) -> Vec<UpdateStep> {
    let mut steps = Vec::new();
    while let Some(step) = machine.next_action() {
        let event = match &step {
            UpdateStep::ReadRepoState => UpdateEvent::RepoState { clean },
            UpdateStep::ReadDirty => UpdateEvent::Dirty { dirty },
            UpdateStep::ReadBranch => UpdateEvent::Branch {
                name: head.map(|h| h.to_string()),
            },
            UpdateStep::RunStash
            | UpdateStep::RunCheckout { .. }
            | UpdateStep::RunRebase
            | UpdateStep::RunStashPop => UpdateEvent::Command {
                result: command_results.remove(0),
            },
        };
        steps.push(step);
        machine.advance(event);
    }
    steps
}

#[test]
fn branch_restore_idempotent_no_checkout() {
    let repo = descriptor("app", "/r/app", "main");
    let mut machine = UpdateMachine::new(&repo, false);
    let mut results = vec![ok_result("Already up to date.\n")];
    let steps = drive(&mut machine, true, false, Some("main"), &mut results);
    assert_eq!(
        steps,
        vec![
            UpdateStep::ReadRepoState,
            UpdateStep::ReadDirty,
            UpdateStep::ReadBranch,
            UpdateStep::RunRebase,
        ]
    );
    assert!(machine.is_finished());
    let outcome = finish_update(machine);
    assert_eq!(outcome.key, "app");
    assert!(outcome.outcome.is_ok());
}

#[test]
fn switch_and_restore_when_branch_differs() {
    let repo = descriptor("app", "/r/app", "main");
    let mut machine = UpdateMachine::new(&repo, false);
    let mut results = vec![ok_result(""), ok_result(""), ok_result("")];
    let steps = drive(&mut machine, true, false, Some("feature"), &mut results);
    assert_eq!(
        steps,
        vec![
            UpdateStep::ReadRepoState,
            UpdateStep::ReadDirty,
            UpdateStep::ReadBranch,
            UpdateStep::RunCheckout { branch: "main".to_string() },
            UpdateStep::RunRebase,
            UpdateStep::RunCheckout { branch: "feature".to_string() },
        ]
    );
    let outcome = finish_update(machine);
    assert!(outcome.outcome.is_ok());
}

#[test]
fn stash_gating_dirty_without_permission() {
    let repo = descriptor("app", "/r/app", "main");
    let mut machine = UpdateMachine::new(&repo, false);
    let mut results = Vec::new();
    let steps = drive(&mut machine, true, true, Some("main"), &mut results);
    // only the two read-only observations ran: no stash, checkout, or rebase
    assert_eq!(steps, vec![UpdateStep::ReadRepoState, UpdateStep::ReadDirty]);
    let outcome = finish_update(machine);
    match outcome.outcome {
        Err(RepoRsError::RepoDirty(key)) => assert_eq!(key, "app"),
        other => panic!("expected RepoDirty, got {:?}", other),
    }
}

#[test]
fn dirty_with_stash_runs_stash_and_pop() {
    let repo = descriptor("app", "/r/app", "main");
    let mut machine = UpdateMachine::new(&repo, true);
    let mut results = vec![ok_result(""), ok_result(""), ok_result("")];
    let steps = drive(&mut machine, true, true, Some("main"), &mut results);
    assert_eq!(
        steps,
        vec![
            UpdateStep::ReadRepoState,
            UpdateStep::ReadDirty,
            UpdateStep::RunStash,
            UpdateStep::ReadBranch,
            UpdateStep::RunRebase,
            UpdateStep::RunStashPop,
        ]
    );
    let outcome = finish_update(machine);
    assert!(outcome.outcome.is_ok());
}

#[test]
fn operations_in_progress_stops_at_once() {
    let repo = descriptor("app", "/r/app", "main");
    let mut machine = UpdateMachine::new(&repo, true);
    let mut results = Vec::new();
    let steps = drive(&mut machine, false, false, Some("main"), &mut results);
    assert_eq!(steps, vec![UpdateStep::ReadRepoState]);
    let outcome = finish_update(machine);
    match outcome.outcome {
        Err(RepoRsError::OperationsInProgress(key)) => assert_eq!(key, "app"),
        other => panic!("expected OperationsInProgress, got {:?}", other),
    }
}

#[test]
fn detached_head_reports_branch_unknown() {
    let repo = descriptor("app", "/r/app", "main");
    let mut machine = UpdateMachine::new(&repo, true);
    let mut results = Vec::new();
    let steps = drive(&mut machine, true, false, None, &mut results);
    assert_eq!(
        steps,
        vec![UpdateStep::ReadRepoState, UpdateStep::ReadDirty, UpdateStep::ReadBranch]
    );
    let outcome = finish_update(machine);
    match outcome.outcome {
        Err(RepoRsError::BranchUnknown(key)) => assert_eq!(key, "app"),
        other => panic!("expected BranchUnknown, got {:?}", other),
    }
}

#[test]
fn rebase_failure_after_switch_leaves_target_branch() {
    let repo = descriptor("app", "/r/app", "main");
    let mut machine = UpdateMachine::new(&repo, false);
    let mut results = vec![ok_result(""), failed_result(1, "conflict\n")];
    let steps = drive(&mut machine, true, false, Some("feature"), &mut results);
    // the failing rebase aborts the run: no restoring checkout follows
    assert_eq!(
        steps,
        vec![
            UpdateStep::ReadRepoState,
            UpdateStep::ReadDirty,
            UpdateStep::ReadBranch,
            UpdateStep::RunCheckout { branch: "main".to_string() },
            UpdateStep::RunRebase,
        ]
    );
    let outcome = finish_update(machine);
    match outcome.outcome {
        Err(RepoRsError::CommandFailed(key, invocation, result)) => {
            assert_eq!(key, "app");
            assert_eq!(invocation, "git pull --rebase");
            assert_eq!(result, failed_result(1, "conflict\n"));
        }
        other => panic!("expected CommandFailed, got {:?}", other),
    }
}

#[test]
fn stash_failure_carries_invocation() {
    let repo = descriptor("app", "/r/app", "main");
    let mut machine = UpdateMachine::new(&repo, true);
    let mut results = vec![failed_result(128, "not a git repository\n")];
    drive(&mut machine, true, true, Some("main"), &mut results);
    let outcome = finish_update(machine);
    match outcome.outcome {
        Err(RepoRsError::CommandFailed(key, invocation, _)) => {
            assert_eq!(key, "app");
            assert_eq!(invocation, "git stash");
        }
        other => panic!("expected CommandFailed, got {:?}", other),
    }
}

#[test]
fn restore_failure_names_original_branch() {
    let repo = descriptor("app", "/r/app", "main");
    let mut machine = UpdateMachine::new(&repo, false);
    let mut results = vec![ok_result(""), ok_result(""), failed_result(1, "")];
    drive(&mut machine, true, false, Some("feature"), &mut results);
    let outcome = finish_update(machine);
    match outcome.outcome {
        Err(RepoRsError::CommandFailed(_, invocation, _)) => {
            assert_eq!(invocation, "git checkout feature");
        }
        other => panic!("expected CommandFailed, got {:?}", other),
    }
}
