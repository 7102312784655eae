use repo_rs::batch::TaskResult;
use repo_rs::batch::finish_update;
use repo_rs::batch::merge_results;
use repo_rs::batch::run_task_outcome;
use repo_rs::batch::status_should_run;
use repo_rs::command::ExecutionResult;
use repo_rs::config::Config;
use repo_rs::error::RepoRsError;
use repo_rs::repo::Repo;
use repo_rs::update::UpdateEvent;
use repo_rs::update::UpdateMachine;
use repo_rs::update::UpdateStep;

fn descriptor(key: &str, path: &str, branch: &str) -> Repo {
    Repo {
        key: key.to_string(),
        path: path.to_string(),
        remote: "origin".to_string(),
        branch: branch.to_string(),
    }
}

fn ok_result(stdout: &str) -> ExecutionResult {
    ExecutionResult { exit_code: 0, stdout: stdout.as_bytes().to_vec(), stderr: Vec::new() }
}

/// Drives one update task against a scripted repository, returning the
/// git steps the machine requested and the finished task.
fn run_update_task(
    repo: &Repo,
    allow_stash: bool,
    clean: bool,
    dirty: bool,
    head: Option<&str>,
) -> (Vec<UpdateStep>, TaskResult) {
    let mut machine = UpdateMachine::new(repo, allow_stash);
    let mut steps = Vec::new();
    while let Some(step) = machine.next_action() {
        let event = match &step {
            UpdateStep::ReadRepoState => UpdateEvent::RepoState { clean },
            UpdateStep::ReadDirty => UpdateEvent::Dirty { dirty },
            UpdateStep::ReadBranch => UpdateEvent::Branch {
                name: head.map(|h| h.to_string()),
            },
            UpdateStep::RunStash
            | UpdateStep::RunCheckout { .. }
            | UpdateStep::RunRebase
            | UpdateStep::RunStashPop => UpdateEvent::Command { result: ok_result("") },
        };
        steps.push(step);
        machine.advance(event);
    }
    (steps, finish_update(machine))
}

fn is_git_command(step: &UpdateStep) -> bool {
    matches!(
        step,
        UpdateStep::RunStash
            | UpdateStep::RunCheckout { .. }
            | UpdateStep::RunRebase
            | UpdateStep::RunStashPop
    )
}

#[test]
fn failure_isolation_in_batch_of_three() {
    let repos = vec![
        descriptor("a", "/r/a", "main"),
        descriptor("b", "/r/b", "main"),
        descriptor("c", "/r/c", "main"),
    ];
    let mut results = Vec::new();
    for repo in &repos {
        // repo "b" has a merge in progress and fails validation
        let clean = repo.key != "b";
        let (steps, task) = run_update_task(repo, false, clean, false, Some("main"));
        if clean {
            // the siblings still complete their full update sequence
            assert!(steps.contains(&UpdateStep::RunRebase));
        }
        results.push(task);
    }
    let report = merge_results(results, false);
    assert_eq!(report.successes.len(), 2);
    assert_eq!(report.successes[0].key, "a");
    assert_eq!(report.successes[1].key, "c");
    assert_eq!(report.failures.len(), 1);
    match &report.failures[0] {
        RepoRsError::OperationsInProgress(key) => assert_eq!(key.as_str(), "b"),
        other => panic!("expected OperationsInProgress, got {:?}", other),
    }
    assert!(report.failed);
}

#[test]
fn suppressed_failures_do_not_fail_batch() {
    let results = vec![
        TaskResult { key: "a".to_string(), outcome: Ok(None) },
        TaskResult {
            key: "b".to_string(),
            outcome: Err(RepoRsError::RepoDirty("b".to_string())),
        },
    ];
    let report = merge_results(results, true);
    assert_eq!(report.successes.len(), 1);
    assert_eq!(report.failures.len(), 1);
    assert!(!report.failed);
}

#[test]
fn all_successes_batch_not_failed() {
    let results = vec![
        TaskResult { key: "a".to_string(), outcome: Ok(None) },
        TaskResult { key: "b".to_string(), outcome: Ok(Some(b"x".to_vec())) },
    ];
    let report = merge_results(results, false);
    assert_eq!(report.successes.len(), 2);
    assert!(report.failures.is_empty());
    assert!(!report.failed);
}

#[test]
fn end_to_end_update_scenario() {
    let mut config = Config::empty();
    config.add(descriptor("a", "/r/a", "main"));
    config.add(descriptor("b", "/r/b", "main"));

    let mut results = Vec::new();
    let mut steps_by_key = Vec::new();
    for repo in config.repos_sorted() {
        // repo "a" is clean; repo "b" has local uncommitted changes
        let dirty = repo.key == "b";
        let (steps, task) = run_update_task(&repo, true, true, dirty, Some("main"));
        steps_by_key.push((repo.key.clone(), steps));
        results.push(task);
    }

    // a's task invoked only the rebase
    let a_git: Vec<&UpdateStep> =
        steps_by_key[0].1.iter().filter(|s| is_git_command(s)).collect();
    assert_eq!(a_git, vec![&UpdateStep::RunRebase]);

    // b's task invoked stash, rebase, stash-pop; no checkout (same branch)
    let b_git: Vec<&UpdateStep> =
        steps_by_key[1].1.iter().filter(|s| is_git_command(s)).collect();
    assert_eq!(
        b_git,
        vec![&UpdateStep::RunStash, &UpdateStep::RunRebase, &UpdateStep::RunStashPop]
    );

    let report = merge_results(results, false);
    assert_eq!(report.successes.len(), 2);
    assert!(report.failures.is_empty());
    assert!(!report.failed);
}

#[test]
fn command_capture_hello() {
    let key = "app".to_string();
    let result = ExecutionResult {
        exit_code: 0,
        stdout: b"hello\n".to_vec(),
        stderr: Vec::new(),
    };
    assert_eq!(result.stdout, b"hello\n".to_vec());
    assert_eq!(result.stderr, b"".to_vec());
    assert_eq!(result.exit_code, 0);
    let args: Vec<String> = vec!["hello".to_string()];
    let task = run_task_outcome(&key, "echo", &args, result);
    assert_eq!(task.key, "app");
    // the output block is exactly the key label and the captured stdout
    let block = task.outcome.expect("task succeeded").expect("output present");
    assert_eq!(block, b"app\nhello\n".to_vec());
}

#[test]
fn command_block_includes_stderr() {
    let key = "app".to_string();
    let result = ExecutionResult {
        exit_code: 0,
        stdout: b"out".to_vec(),
        stderr: b"warn".to_vec(),
    };
    let task = run_task_outcome(&key, "sh", &Vec::new(), result);
    let block = task.outcome.expect("task succeeded").expect("output present");
    assert_eq!(block, b"app\nout\nwarn".to_vec());
}

#[test]
fn silent_command_yields_no_block() {
    let key = "app".to_string();
    let result = ExecutionResult { exit_code: 0, stdout: Vec::new(), stderr: Vec::new() };
    let task = run_task_outcome(&key, "true", &Vec::new(), result);
    assert_eq!(task.outcome.expect("task succeeded"), None);
}

#[test]
fn failed_command_carries_invocation_and_output() {
    let key = "app".to_string();
    let result = ExecutionResult {
        exit_code: 2,
        stdout: b"partial".to_vec(),
        stderr: b"boom\n".to_vec(),
    };
    let args: Vec<String> = vec!["-c".to_string(), "exit 2".to_string()];
    let task = run_task_outcome(&key, "sh", &args, result.clone());
    match task.outcome {
        Err(RepoRsError::CommandFailed(k, invocation, r)) => {
            assert_eq!(k, "app");
            assert_eq!(invocation, "sh -c exit 2");
            assert_eq!(r, result);
        }
        other => panic!("expected CommandFailed, got {:?}", other),
    }
}

#[test]
fn status_run_decision() {
    assert!(status_should_run(false, false));
    assert!(status_should_run(false, true));
    assert!(!status_should_run(true, false));
    assert!(status_should_run(true, true));
}
