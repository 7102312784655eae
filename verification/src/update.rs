//! The per-repository safe-update state machine.
//!
//! One update runs strictly sequentially through
//! validate, dirty check, optional stash, branch determination, optional
//! switch to the target branch, rebase, optional restore of the original
//! branch, and optional stash pop. The machine holds the decisions only:
//! it tells its driver which observation to make or which git command to
//! run next ([`UpdateMachine::next_action`]), and the driver feeds the
//! outcome back in ([`UpdateMachine::advance`]). Any failing step aborts
//! every later step, with no compensating action: a failure after the
//! branch switch leaves the repository on the target branch, an accepted
//! and documented risk. The whole run is the mathematical function
//! [`UpdateMachine::spec_next`] folded over the observations.

use vstd::prelude::*;

use crate::command::ExecutionResult;
use crate::error::RepoRsError;
use crate::repo::Repo;

verus! {

/// One git command the machine can ask its driver to run.
#[derive(Debug, PartialEq, Eq)]
pub enum GitOp {
    /// `git stash`
    Stash,
    /// `git checkout <branch>`
    Checkout { branch: String },
    /// `git pull --rebase`
    Rebase,
    /// `git stash pop`
    StashPop,
}

/// What the machine asks its driver to do next: make a read-only
/// observation of the repository, or run one git command.
#[derive(Debug, PartialEq, Eq)]
pub enum UpdateStep {
    /// Observe whether the repository state is clean (no merge, rebase,
    /// or similar operation in progress).
    ReadRepoState,
    /// Observe whether the working tree differs from the index.
    ReadDirty,
    /// Observe the name of the checked-out branch, if any.
    ReadBranch,
    /// Run `git stash`.
    RunStash,
    /// Run `git checkout` of the named branch.
    RunCheckout { branch: String },
    /// Run `git pull --rebase`.
    RunRebase,
    /// Run `git stash pop`.
    RunStashPop,
}

/// What the driver observed for the step the machine asked for.
#[derive(Debug)]
pub enum UpdateEvent {
    /// Whether the repository state is clean.
    RepoState { clean: bool },
    /// Whether the working tree has uncommitted changes.
    Dirty { dirty: bool },
    /// The checked-out branch, or `None` for a detached or otherwise
    /// unnamed HEAD.
    Branch { name: Option<String> },
    /// The captured outcome of the requested git command.
    Command { result: ExecutionResult },
}

/// Why an update stopped early.
#[derive(Debug, PartialEq, Eq)]
pub enum UpdateFailure {
    /// The repository has local operations in progress.
    OperationsInProgress,
    /// The working tree is dirty and stashing was not permitted.
    RepoDirty,
    /// The checked-out branch could not be determined.
    BranchUnknown,
    /// A git command returned a non-zero exit code.
    CommandFailed { op: GitOp, result: ExecutionResult },
}

/// Where the machine stands in the update protocol.
#[derive(Debug, Clone, Copy, PartialEq, Eq, Structural)]
pub enum UpdatePhase {
    Validate,
    CheckDirty,
    Stash,
    DetermineBranch,
    SwitchToTarget,
    Rebase,
    RestoreBranch,
    Unstash,
    Done,
    Failed,
}

/// The state of one repository's update run.
#[derive(Debug)]
pub struct UpdateMachine {
    /// The repository key, carried for attribution in errors.
    pub key: String,
    /// The branch the update targets.
    pub target_branch: String,
    /// Whether a dirty working tree may be stashed.
    pub allow_stash: bool,
    /// The current protocol phase.
    pub phase: UpdatePhase,
    /// Whether the working tree was observed dirty.
    pub dirty: bool,
    /// Whether this run created a stash.
    pub stashed: bool,
    /// The branch that was checked out when the run began, once
    /// observed.
    pub original_branch: Option<String>,
    /// Whether this run switched away from the original branch.
    pub switched: bool,
    /// The captured rebase output, once the rebase succeeded; the
    /// operation's return value.
    pub output: Option<ExecutionResult>,
    /// Why the run failed, once it has.
    pub failure: Option<UpdateFailure>,
}

/// The machine a fresh update run starts with.
pub open spec fn spec_init(repo: Repo, allow_stash: bool) -> UpdateMachine {
    UpdateMachine {
        key: repo.key,
        target_branch: repo.branch,
        allow_stash,
        phase: UpdatePhase::Validate,
        dirty: false,
        stashed: false,
        original_branch: Option::None,
        switched: false,
        output: Option::None,
        failure: Option::None,
    }
}

impl UpdateMachine {
    /// The machine's invariant, established at start and preserved by
    /// every transition.
    pub open spec fn wf(self) -> bool {
        &&& (self.phase is Validate || self.phase is CheckDirty ==> !self.dirty && !self.stashed
            && !self.switched && self.original_branch is None)
        &&& (self.phase is Stash ==> self.dirty && self.allow_stash && !self.stashed
            && !self.switched && self.original_branch is None)
        &&& (self.phase is DetermineBranch ==> self.original_branch is None && !self.switched)
        &&& (self.stashed ==> self.dirty && self.allow_stash)
        &&& (self.phase is SwitchToTarget ==> !self.switched && (self.original_branch matches Some(
            b,
        ) && b@ != self.target_branch@))
        &&& (self.switched ==> (self.original_branch matches Some(b) && b@
            != self.target_branch@))
        &&& (self.phase is RestoreBranch ==> self.switched)
        &&& (self.phase is Rebase ==> self.original_branch is Some)
        &&& (self.phase is RestoreBranch || self.phase is Unstash ==> self.output is Some)
        &&& (self.phase is Done ==> self.output is Some)
        &&& (self.phase is Failed ==> self.failure is Some)
    }

    /// Whether `ev` is the kind of observation the current phase awaits.
    pub open spec fn expects(self, ev: UpdateEvent) -> bool {
        match self.phase {
            UpdatePhase::Validate => ev is RepoState,
            UpdatePhase::CheckDirty => ev is Dirty,
            UpdatePhase::DetermineBranch => ev is Branch,
            UpdatePhase::Stash => ev is Command,
            UpdatePhase::SwitchToTarget => ev is Command,
            UpdatePhase::Rebase => ev is Command,
            UpdatePhase::RestoreBranch => ev is Command,
            UpdatePhase::Unstash => ev is Command,
            UpdatePhase::Done => false,
            UpdatePhase::Failed => false,
        }
    }

    /// This machine, stopped with the given failure.
    pub open spec fn spec_failed(self, f: UpdateFailure) -> UpdateMachine {
        UpdateMachine { phase: UpdatePhase::Failed, failure: Option::Some(f), ..self }
    }

    /// The transition function: the machine after observing `ev`. An
    /// observation a terminal or mismatched phase does not await leaves
    /// the machine unchanged.
    pub open spec fn spec_next(self, ev: UpdateEvent) -> UpdateMachine {
        match self.phase {
            UpdatePhase::Validate => match ev {
                UpdateEvent::RepoState { clean } => if clean {
                    UpdateMachine { phase: UpdatePhase::CheckDirty, ..self }
                } else {
                    self.spec_failed(UpdateFailure::OperationsInProgress)
                },
                _ => self,
            },
            UpdatePhase::CheckDirty => match ev {
                UpdateEvent::Dirty { dirty } => if !dirty {
                    UpdateMachine { phase: UpdatePhase::DetermineBranch, ..self }
                } else if self.allow_stash {
                    UpdateMachine { phase: UpdatePhase::Stash, dirty: true, ..self }
                } else {
                    UpdateMachine { dirty: true, ..self }.spec_failed(UpdateFailure::RepoDirty)
                },
                _ => self,
            },
            UpdatePhase::Stash => match ev {
                UpdateEvent::Command { result } => if result.is_success() {
                    UpdateMachine { phase: UpdatePhase::DetermineBranch, stashed: true, ..self }
                } else {
                    self.spec_failed(UpdateFailure::CommandFailed { op: GitOp::Stash, result })
                },
                _ => self,
            },
            UpdatePhase::DetermineBranch => match ev {
                UpdateEvent::Branch { name } => match name {
                    Option::Some(b) => if b@ == self.target_branch@ {
                        UpdateMachine {
                            phase: UpdatePhase::Rebase,
                            original_branch: Option::Some(b),
                            ..self
                        }
                    } else {
                        UpdateMachine {
                            phase: UpdatePhase::SwitchToTarget,
                            original_branch: Option::Some(b),
                            ..self
                        }
                    },
                    Option::None => self.spec_failed(UpdateFailure::BranchUnknown),
                },
                _ => self,
            },
            UpdatePhase::SwitchToTarget => match ev {
                UpdateEvent::Command { result } => if result.is_success() {
                    UpdateMachine { phase: UpdatePhase::Rebase, switched: true, ..self }
                } else {
                    self.spec_failed(
                        UpdateFailure::CommandFailed {
                            op: GitOp::Checkout { branch: self.target_branch },
                            result,
                        },
                    )
                },
                _ => self,
            },
            UpdatePhase::Rebase => match ev {
                UpdateEvent::Command { result } => if result.is_success() {
                    if self.switched {
                        UpdateMachine {
                            phase: UpdatePhase::RestoreBranch,
                            output: Option::Some(result),
                            ..self
                        }
                    } else if self.stashed {
                        UpdateMachine {
                            phase: UpdatePhase::Unstash,
                            output: Option::Some(result),
                            ..self
                        }
                    } else {
                        UpdateMachine {
                            phase: UpdatePhase::Done,
                            output: Option::Some(result),
                            ..self
                        }
                    }
                } else {
                    self.spec_failed(UpdateFailure::CommandFailed { op: GitOp::Rebase, result })
                },
                _ => self,
            },
            UpdatePhase::RestoreBranch => match ev {
                UpdateEvent::Command { result } => if result.is_success() {
                    if self.stashed {
                        UpdateMachine { phase: UpdatePhase::Unstash, ..self }
                    } else {
                        UpdateMachine { phase: UpdatePhase::Done, ..self }
                    }
                } else {
                    self.spec_failed(
                        UpdateFailure::CommandFailed {
                            op: GitOp::Checkout { branch: self.original_branch.unwrap() },
                            result,
                        },
                    )
                },
                _ => self,
            },
            UpdatePhase::Unstash => match ev {
                UpdateEvent::Command { result } => if result.is_success() {
                    UpdateMachine { phase: UpdatePhase::Done, ..self }
                } else {
                    self.spec_failed(UpdateFailure::CommandFailed { op: GitOp::StashPop, result })
                },
                _ => self,
            },
            UpdatePhase::Done => self,
            UpdatePhase::Failed => self,
        }
    }

    /// The step the current phase asks the driver for; `None` once the
    /// run is finished.
    pub open spec fn spec_action(self) -> Option<UpdateStep> {
        match self.phase {
            UpdatePhase::Validate => Option::Some(UpdateStep::ReadRepoState),
            UpdatePhase::CheckDirty => Option::Some(UpdateStep::ReadDirty),
            UpdatePhase::Stash => Option::Some(UpdateStep::RunStash),
            UpdatePhase::DetermineBranch => Option::Some(UpdateStep::ReadBranch),
            UpdatePhase::SwitchToTarget => Option::Some(
                UpdateStep::RunCheckout { branch: self.target_branch },
            ),
            UpdatePhase::Rebase => Option::Some(UpdateStep::RunRebase),
            UpdatePhase::RestoreBranch => Option::Some(
                UpdateStep::RunCheckout { branch: self.original_branch.unwrap() },
            ),
            UpdatePhase::Unstash => Option::Some(UpdateStep::RunStashPop),
            UpdatePhase::Done => Option::None,
            UpdatePhase::Failed => Option::None,
        }
    }

    /// Starts an update run for `repo`: the machine stands at
    /// validation, with nothing observed yet.
    pub fn new(repo: &Repo, allow_stash: bool) -> (m: UpdateMachine)
        ensures
            m == spec_init(*repo, allow_stash),
            m.wf(),
    {
        UpdateMachine {
            key: repo.key.clone(),
            target_branch: repo.branch.clone(),
            allow_stash,
            phase: UpdatePhase::Validate,
            dirty: false,
            stashed: false,
            original_branch: Option::None,
            switched: false,
            output: Option::None,
            failure: Option::None,
        }
    }

    /// The step the driver must perform now, exactly as `spec_action`
    /// says; `None` once the run is done or failed.
    pub fn next_action(&self) -> (a: Option<UpdateStep>)
        requires
            self.wf(),
        ensures
            a == self.spec_action(),
    {
        match self.phase {
            UpdatePhase::Validate => Option::Some(UpdateStep::ReadRepoState),
            UpdatePhase::CheckDirty => Option::Some(UpdateStep::ReadDirty),
            UpdatePhase::Stash => Option::Some(UpdateStep::RunStash),
            UpdatePhase::DetermineBranch => Option::Some(UpdateStep::ReadBranch),
            UpdatePhase::SwitchToTarget => Option::Some(
                UpdateStep::RunCheckout { branch: self.target_branch.clone() },
            ),
            UpdatePhase::Rebase => Option::Some(UpdateStep::RunRebase),
            UpdatePhase::RestoreBranch => match &self.original_branch {
                Option::Some(b) => Option::Some(UpdateStep::RunCheckout { branch: b.clone() }),
                Option::None => unreached(),
            },
            UpdatePhase::Unstash => Option::Some(UpdateStep::RunStashPop),
            UpdatePhase::Done => Option::None,
            UpdatePhase::Failed => Option::None,
        }
    }

    /// Whether the run has reached a terminal phase.
    pub fn is_finished(&self) -> (r: bool)
        ensures
            r == (self.phase is Done || self.phase is Failed),
    {
        match self.phase {
            UpdatePhase::Done => true,
            UpdatePhase::Failed => true,
            _ => false,
        }
    }

    /// Feeds one observation into the machine, which takes exactly the
    /// transition `spec_next` describes.
    pub fn advance(&mut self, ev: UpdateEvent)
        requires
            old(self).wf(),
            old(self).expects(ev),
        ensures
            *final(self) == old(self).spec_next(ev),
            final(self).wf(),
    {
        match self.phase {
            UpdatePhase::Validate => match ev {
                UpdateEvent::RepoState { clean } => {
                    if clean {
                        self.phase = UpdatePhase::CheckDirty;
                    } else {
                        self.phase = UpdatePhase::Failed;
                        self.failure = Option::Some(UpdateFailure::OperationsInProgress);
                    }
                },
                _ => {
                    proof {
                        assert(false);
                    }
                },
            },
            UpdatePhase::CheckDirty => match ev {
                UpdateEvent::Dirty { dirty } => {
                    if !dirty {
                        self.phase = UpdatePhase::DetermineBranch;
                    } else {
                        self.dirty = true;
                        if self.allow_stash {
                            self.phase = UpdatePhase::Stash;
                        } else {
                            self.phase = UpdatePhase::Failed;
                            self.failure = Option::Some(UpdateFailure::RepoDirty);
                        }
                    }
                },
                _ => {
                    proof {
                        assert(false);
                    }
                },
            },
            UpdatePhase::Stash => match ev {
                UpdateEvent::Command { result } => {
                    if result.exit_code == 0 {
                        self.phase = UpdatePhase::DetermineBranch;
                        self.stashed = true;
                    } else {
                        self.phase = UpdatePhase::Failed;
                        self.failure = Option::Some(
                            UpdateFailure::CommandFailed { op: GitOp::Stash, result },
                        );
                    }
                },
                _ => {
                    proof {
                        assert(false);
                    }
                },
            },
            UpdatePhase::DetermineBranch => match ev {
                UpdateEvent::Branch { name } => match name {
                    Option::Some(b) => {
                        if b == self.target_branch {
                            self.phase = UpdatePhase::Rebase;
                        } else {
                            self.phase = UpdatePhase::SwitchToTarget;
                        }
                        self.original_branch = Option::Some(b);
                    },
                    Option::None => {
                        self.phase = UpdatePhase::Failed;
                        self.failure = Option::Some(UpdateFailure::BranchUnknown);
                    },
                },
                _ => {
                    proof {
                        assert(false);
                    }
                },
            },
            UpdatePhase::SwitchToTarget => match ev {
                UpdateEvent::Command { result } => {
                    if result.exit_code == 0 {
                        self.phase = UpdatePhase::Rebase;
                        self.switched = true;
                    } else {
                        self.phase = UpdatePhase::Failed;
                        self.failure = Option::Some(
                            UpdateFailure::CommandFailed {
                                op: GitOp::Checkout { branch: self.target_branch.clone() },
                                result,
                            },
                        );
                    }
                },
                _ => {
                    proof {
                        assert(false);
                    }
                },
            },
            UpdatePhase::Rebase => match ev {
                UpdateEvent::Command { result } => {
                    if result.exit_code == 0 {
                        if self.switched {
                            self.phase = UpdatePhase::RestoreBranch;
                        } else if self.stashed {
                            self.phase = UpdatePhase::Unstash;
                        } else {
                            self.phase = UpdatePhase::Done;
                        }
                        self.output = Option::Some(result);
                    } else {
                        self.phase = UpdatePhase::Failed;
                        self.failure = Option::Some(
                            UpdateFailure::CommandFailed { op: GitOp::Rebase, result },
                        );
                    }
                },
                _ => {
                    proof {
                        assert(false);
                    }
                },
            },
            UpdatePhase::RestoreBranch => match ev {
                UpdateEvent::Command { result } => {
                    if result.exit_code == 0 {
                        if self.stashed {
                            self.phase = UpdatePhase::Unstash;
                        } else {
                            self.phase = UpdatePhase::Done;
                        }
                    } else {
                        let original = match &self.original_branch {
                            Option::Some(b) => b.clone(),
                            Option::None => unreached(),
                        };
                        self.phase = UpdatePhase::Failed;
                        self.failure = Option::Some(
                            UpdateFailure::CommandFailed {
                                op: GitOp::Checkout { branch: original },
                                result,
                            },
                        );
                    }
                },
                _ => {
                    proof {
                        assert(false);
                    }
                },
            },
            UpdatePhase::Unstash => match ev {
                UpdateEvent::Command { result } => {
                    if result.exit_code == 0 {
                        self.phase = UpdatePhase::Done;
                    } else {
                        self.phase = UpdatePhase::Failed;
                        self.failure = Option::Some(
                            UpdateFailure::CommandFailed { op: GitOp::StashPop, result },
                        );
                    }
                },
                _ => {
                    proof {
                        assert(false);
                    }
                },
            },
            UpdatePhase::Done => {
                proof {
                    assert(false);
                }
            },
            UpdatePhase::Failed => {
                proof {
                    assert(false);
                }
            },
        }
    }
}

/// The rendered invocation of one git command, for error attribution.
pub open spec fn git_op_text(op: GitOp) -> Seq<char> {
    match op {
        GitOp::Stash => "git stash"@,
        GitOp::Checkout { branch } => "git checkout "@ + branch@,
        GitOp::Rebase => "git pull --rebase"@,
        GitOp::StashPop => "git stash pop"@,
    }
}

/// Renders one git command as the invocation line its error report
/// shows.
pub fn git_op_invocation(op: &GitOp) -> (r: String)
    ensures
        r@ == git_op_text(*op),
{
    match op {
        GitOp::Stash => "git stash".to_owned(),
        GitOp::Checkout { branch } => {
            let mut text = "git checkout ".to_owned();
            text.append(branch.as_str());
            text
        },
        GitOp::Rebase => "git pull --rebase".to_owned(),
        GitOp::StashPop => "git stash pop".to_owned(),
    }
}

/// How a terminal update failure shows up as a library error for the
/// repository under `key`: the same kind, attributed to that key, and a
/// failed command carrying its rendered invocation and captured output.
pub open spec fn update_error_matches(key: Seq<char>, f: UpdateFailure, e: RepoRsError) -> bool {
    match f {
        UpdateFailure::OperationsInProgress => e matches RepoRsError::OperationsInProgress(k) && k@
            == key,
        UpdateFailure::RepoDirty => e matches RepoRsError::RepoDirty(k) && k@ == key,
        UpdateFailure::BranchUnknown => e matches RepoRsError::BranchUnknown(k) && k@ == key,
        UpdateFailure::CommandFailed { op, result } => e matches RepoRsError::CommandFailed(
            k,
            inv,
            r,
        ) && k@ == key && inv@ == git_op_text(op) && r == result,
    }
}

/// Turns a terminal failure into the library error for the repository
/// under `key`: every variant carries the key for attribution, and a
/// failed command carries its rendered invocation and captured output.
pub fn failure_to_error(key: &String, f: UpdateFailure) -> (e: RepoRsError)
    ensures
        update_error_matches(key@, f, e),
{
    match f {
        UpdateFailure::OperationsInProgress => RepoRsError::OperationsInProgress(key.clone()),
        UpdateFailure::RepoDirty => RepoRsError::RepoDirty(key.clone()),
        UpdateFailure::BranchUnknown => RepoRsError::BranchUnknown(key.clone()),
        UpdateFailure::CommandFailed { op, result } => {
            let invocation = git_op_invocation(&op);
            RepoRsError::CommandFailed(key.clone(), invocation, result)
        },
    }
}

/// The machine after the whole sequence of observations `evs`, fed in
/// one at a time from the first.
pub open spec fn run_events(m: UpdateMachine, evs: Seq<UpdateEvent>) -> UpdateMachine
    decreases evs.len(),
{
    if evs.len() == 0 {
        m
    } else {
        run_events(m.spec_next(evs[0]), evs.drop_first())
    }
}

/// Every transition preserves the machine invariant, whatever was
/// observed.
pub proof fn lemma_next_preserves_wf(m: UpdateMachine, ev: UpdateEvent)
    requires
        m.wf(),
    ensures
        m.spec_next(ev).wf(),
{
}

/// A transition never changes the machine's identity or configuration:
/// key, target branch, and stash permission are fixed for the run.
pub proof fn lemma_next_fixes_identity(m: UpdateMachine, ev: UpdateEvent)
    ensures
        m.spec_next(ev).key == m.key,
        m.spec_next(ev).target_branch == m.target_branch,
        m.spec_next(ev).allow_stash == m.allow_stash,
{
}

/// Whether an action is a checkout request.
pub open spec fn is_checkout(a: Option<UpdateStep>) -> bool {
    a matches Option::Some(s) && s is RunCheckout
}

/// Whether the machine's recorded original branch, if any, names its
/// target branch.
pub open spec fn branch_matched(m: UpdateMachine) -> bool {
    m.original_branch matches Some(b) ==> b@ == m.target_branch@
}

/// Whether a branch observation can only report `target`: either it is
/// not a branch observation at all, or it names `target`.
pub open spec fn reports_target_branch(ev: UpdateEvent, target: Seq<char>) -> bool {
    ev matches UpdateEvent::Branch { name } ==> (name matches Some(b) && b@ == target)
}

/// A machine whose recorded original branch names the target never
/// requests a checkout.
pub proof fn lemma_matched_branch_no_checkout(m: UpdateMachine)
    requires
        m.wf(),
        branch_matched(m),
    ensures
        !is_checkout(m.spec_action()),
{
}

proof fn lemma_run_keeps_branch_matched(m: UpdateMachine, evs: Seq<UpdateEvent>)
    requires
        m.wf(),
        branch_matched(m),
        forall|k: int| 0 <= k < evs.len() ==> reports_target_branch(#[trigger] evs[k], m.target_branch@),
    ensures
        run_events(m, evs).wf(),
        branch_matched(run_events(m, evs)),
    decreases evs.len(),
{
    if evs.len() > 0 {
        let m1 = m.spec_next(evs[0]);
        lemma_next_preserves_wf(m, evs[0]);
        lemma_next_fixes_identity(m, evs[0]);
        assert(forall|k: int|
            0 <= k < evs.drop_first().len() ==> reports_target_branch(
                #[trigger] evs.drop_first()[k],
                m1.target_branch@,
            ));
        lemma_run_keeps_branch_matched(m1, evs.drop_first());
    }
}

/// Branch-restore idempotence: when every branch observation of a run
/// names the target branch itself — the repository already stands on the
/// branch the update targets — no state the machine passes through
/// requests a checkout: the switch and the restore are both skipped.
pub proof fn lemma_branch_restore_idempotence(
    repo: Repo,
    allow_stash: bool,
    evs: Seq<UpdateEvent>,
)
    requires
        forall|k: int|
            0 <= k < evs.len() ==> reports_target_branch(#[trigger] evs[k], repo.branch@),
    ensures
        forall|k: int|
            0 <= k <= evs.len() ==> !is_checkout(
                run_events(spec_init(repo, allow_stash), #[trigger] evs.take(k)).spec_action(),
            ),
{
    assert forall|k: int| 0 <= k <= evs.len() implies !is_checkout(
        run_events(spec_init(repo, allow_stash), #[trigger] evs.take(k)).spec_action(),
    ) by {
        let m0 = spec_init(repo, allow_stash);
        assert(forall|j: int|
            0 <= j < evs.take(k).len() ==> reports_target_branch(
                #[trigger] evs.take(k)[j],
                m0.target_branch@,
            ));
        lemma_run_keeps_branch_matched(m0, evs.take(k));
        lemma_matched_branch_no_checkout(run_events(m0, evs.take(k)));
    }
}

/// When the repository already stands on the target branch, an update
/// whose rebase succeeds runs to completion: the run observes a clean
/// state, a clean tree, the matching branch, and the successful rebase,
/// and ends done with that rebase output and no stash, switch, or
/// failure.
pub proof fn lemma_matched_branch_update_succeeds(
    repo: Repo,
    allow_stash: bool,
    b: String,
    rebase: ExecutionResult,
)
    requires
        b@ == repo.branch@,
        rebase.is_success(),
    ensures
        ({
            let evs = seq![
                UpdateEvent::RepoState { clean: true },
                UpdateEvent::Dirty { dirty: false },
                UpdateEvent::Branch { name: Option::Some(b) },
                UpdateEvent::Command { result: rebase },
            ];
            let fin = run_events(spec_init(repo, allow_stash), evs);
            &&& fin.phase is Done
            &&& fin.output == Option::Some(rebase)
            &&& !fin.stashed
            &&& !fin.switched
            &&& fin.failure is None
        }),
{
    let e0 = UpdateEvent::RepoState { clean: true };
    let e1 = UpdateEvent::Dirty { dirty: false };
    let e2 = UpdateEvent::Branch { name: Option::Some(b) };
    let e3 = UpdateEvent::Command { result: rebase };
    let evs = seq![e0, e1, e2, e3];
    let m0 = spec_init(repo, allow_stash);
    let m1 = m0.spec_next(e0);
    let m2 = m1.spec_next(e1);
    let m3 = m2.spec_next(e2);
    let m4 = m3.spec_next(e3);
    let t1 = seq![e1, e2, e3];
    let t2 = seq![e2, e3];
    let t3 = seq![e3];
    let t4 = Seq::<UpdateEvent>::empty();
    assert(evs[0] == e0 && t1[0] == e1 && t2[0] == e2 && t3[0] == e3);
    assert(evs.drop_first() =~= t1);
    assert(t1.drop_first() =~= t2);
    assert(t2.drop_first() =~= t3);
    assert(t3.drop_first() =~= t4);
    assert(run_events(m0, evs) == run_events(m1, t1));
    assert(run_events(m1, t1) == run_events(m2, t2));
    assert(run_events(m2, t2) == run_events(m3, t3));
    assert(run_events(m3, t3) == run_events(m4, t4));
    assert(run_events(m4, t4) == m4);
}

/// Stash gating: with stashing not permitted, a run that observes a
/// clean repository state and then a dirty working tree fails with
/// `RepoDirty` at once. The only steps it ever requested are the two
/// read-only observations; no git command was or will be asked for.
pub proof fn lemma_stash_gating(repo: Repo)
    ensures
        ({
            let m0 = spec_init(repo, false);
            let m1 = m0.spec_next(UpdateEvent::RepoState { clean: true });
            let m2 = m1.spec_next(UpdateEvent::Dirty { dirty: true });
            &&& m0.spec_action() == Option::Some(UpdateStep::ReadRepoState)
            &&& m1.spec_action() == Option::Some(UpdateStep::ReadDirty)
            &&& m2.phase is Failed
            &&& m2.failure == Option::Some(UpdateFailure::RepoDirty)
            &&& m2.spec_action() is None
        }),
{
}

} // verus!
