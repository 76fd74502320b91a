//! RemovalWorkflow: the destructive teardown of one worktree as an explicit
//! ordered sequence of fallible steps with no automatic compensation — the
//! working directory, the administrative entry (whose absence is tolerated),
//! and the local branch (whose absence is tolerated). A failing step stops
//! the workflow; already-completed steps are not rolled back.

use vstd::prelude::*;
use crate::gitcalls::{open_repo, repo_gitdir, delete_local_branch};
use crate::locate::{LocateError, spec_main_root, main_root_of};
use crate::strutil::{spec_dirname, dirname};

verus! {

/// The paths and the branch name that the teardown steps operate on,
/// computed once before any destruction starts.
pub struct RemovalPlan {
    pub worktree_dir: String,
    pub admin_dir: String,
    pub main_root: String,
    pub branch: String,
}

/// A fatal planning failure; nothing was destroyed yet.
#[derive(Clone, Copy, Debug, PartialEq, Eq, Structural)]
pub enum RemovalError {
    OpenWorktreeRepository,
    Locate { cause: LocateError },
}

impl RemovalError {
    /// A diagnostic line describing the failure.
    pub fn message(&self) -> (r: String)
        ensures
            match *self {
                RemovalError::OpenWorktreeRepository => r@
                    == "Failed to open worktree repository"@,
                RemovalError::Locate { cause } => r@ == cause.message_view(),
            },
    {
        match self {
            RemovalError::OpenWorktreeRepository => String::from_str(
                "Failed to open worktree repository",
            ),
            RemovalError::Locate { cause } => cause.message(),
        }
    }
}

/// Where the workflow stands.
#[derive(Clone, Copy, Debug, PartialEq, Eq, Structural)]
pub enum RemovalStage {
    Start,
    DirRemoved,
    AdminHandled,
    Done { branch_deleted: bool },
    Failed,
}

/// What the driver must do next.
pub enum RemovalAction {
    RemoveDir { dir: String },
    RemoveAdminDir { dir: String },
    DeleteBranch { name: String },
    Stop,
}

/// What the last action came to. A `Failure` carries the originating cause,
/// which the driver surfaces verbatim; the workflow itself only stops on it.
pub enum StepEvent {
    Removed,
    AlreadyAbsent,
    BranchDeleted,
    BranchMissing,
    Failure { message: String },
}

/// The transition table of the teardown. Directory removal must succeed;
/// absence of the administrative entry is not an error; absence of the local
/// branch is not an error; any failure stops the workflow.
pub open spec fn spec_removal_next(
    plan: RemovalPlan,
    stage: RemovalStage,
    event: StepEvent,
) -> (RemovalStage, RemovalAction) {
    match stage {
        RemovalStage::Start => match event {
            StepEvent::Removed => (
                RemovalStage::DirRemoved,
                RemovalAction::RemoveAdminDir { dir: plan.admin_dir },
            ),
            _ => (RemovalStage::Failed, RemovalAction::Stop),
        },
        RemovalStage::DirRemoved => match event {
            StepEvent::Removed => (
                RemovalStage::AdminHandled,
                RemovalAction::DeleteBranch { name: plan.branch },
            ),
            StepEvent::AlreadyAbsent => (
                RemovalStage::AdminHandled,
                RemovalAction::DeleteBranch { name: plan.branch },
            ),
            _ => (RemovalStage::Failed, RemovalAction::Stop),
        },
        RemovalStage::AdminHandled => match event {
            StepEvent::BranchDeleted => (
                RemovalStage::Done { branch_deleted: true },
                RemovalAction::Stop,
            ),
            StepEvent::BranchMissing => (
                RemovalStage::Done { branch_deleted: false },
                RemovalAction::Stop,
            ),
            _ => (RemovalStage::Failed, RemovalAction::Stop),
        },
        RemovalStage::Done { branch_deleted } => (
            RemovalStage::Done { branch_deleted },
            RemovalAction::Stop,
        ),
        RemovalStage::Failed => (RemovalStage::Failed, RemovalAction::Stop),
    }
}

/// The first action of the workflow: remove the worktree's own directory.
pub fn removal_start(plan: &RemovalPlan) -> (r: (RemovalStage, RemovalAction))
    ensures
        (r.0 == RemovalStage::Start),
        (r.1 == RemovalAction::RemoveDir { dir: plan.worktree_dir }),
{
    (RemovalStage::Start, RemovalAction::RemoveDir { dir: plan.worktree_dir.clone() })
}

/// Advance the workflow by one observed event (see `spec_removal_next`).
pub fn removal_next(plan: &RemovalPlan, stage: RemovalStage, event: &StepEvent) -> (r: (
    RemovalStage,
    RemovalAction,
))
    ensures
        r == spec_removal_next(*plan, stage, *event),
{
    match stage {
        RemovalStage::Start => match event {
            StepEvent::Removed => (
                RemovalStage::DirRemoved,
                RemovalAction::RemoveAdminDir { dir: plan.admin_dir.clone() },
            ),
            _ => (RemovalStage::Failed, RemovalAction::Stop),
        },
        RemovalStage::DirRemoved => match event {
            StepEvent::Removed => (
                RemovalStage::AdminHandled,
                RemovalAction::DeleteBranch { name: plan.branch.clone() },
            ),
            StepEvent::AlreadyAbsent => (
                RemovalStage::AdminHandled,
                RemovalAction::DeleteBranch { name: plan.branch.clone() },
            ),
            _ => (RemovalStage::Failed, RemovalAction::Stop),
        },
        RemovalStage::AdminHandled => match event {
            StepEvent::BranchDeleted => (
                RemovalStage::Done { branch_deleted: true },
                RemovalAction::Stop,
            ),
            StepEvent::BranchMissing => (
                RemovalStage::Done { branch_deleted: false },
                RemovalAction::Stop,
            ),
            _ => (RemovalStage::Failed, RemovalAction::Stop),
        },
        RemovalStage::Done { branch_deleted } => (
            RemovalStage::Done { branch_deleted },
            RemovalAction::Stop,
        ),
        RemovalStage::Failed => (RemovalStage::Failed, RemovalAction::Stop),
    }
}

/// The administrative entry of the worktree at `path` under the main
/// repository root: the worktree-administrative listing, named by the
/// worktree directory's final path segment.
pub open spec fn spec_admin_dir(root: Seq<char>, path: Seq<char>) -> Seq<char> {
    root + "/.git/worktrees/"@ + spec_dirname(path)
}

/// Compute the teardown plan from the worktree's administrative directory
/// path, using the same main-root derivation as discovery.
pub fn plan_removal(branch: &str, path: &str, gitdir: &str) -> (r: Result<
    RemovalPlan,
    LocateError,
>)
    ensures
        match r {
            Ok(p) => {
                &&& spec_main_root(gitdir@) == Ok::<Seq<char>, LocateError>(p.main_root@)
                &&& p.worktree_dir@ == path@
                &&& p.branch@ == branch@
                &&& p.admin_dir@ == spec_admin_dir(p.main_root@, path@)
            },
            Err(e) => spec_main_root(gitdir@) == Err::<Seq<char>, LocateError>(e),
        },
{
    let main_root = match main_root_of(gitdir) {
        Err(e) => {
            return Err(e);
        },
        Ok(x) => x,
    };
    let name = dirname(path);
    let mut admin_dir = main_root.clone();
    admin_dir.append("/.git/worktrees/");
    admin_dir.append(name.as_str());
    Ok(
        RemovalPlan {
            worktree_dir: path.to_owned(),
            admin_dir,
            main_root,
            branch: branch.to_owned(),
        },
    )
}

/// Open the worktree's repository (validating that it exists) and compute
/// the teardown plan from its administrative directory.
pub fn begin_removal(branch: &str, path: &str) -> (r: Result<RemovalPlan, RemovalError>)
    ensures
        match r {
            Ok(p) => {
                &&& p.worktree_dir@ == path@
                &&& p.branch@ == branch@
                &&& p.admin_dir@ == spec_admin_dir(p.main_root@, path@)
            },
            Err(e) => true,
        },
{
    let repo = match open_repo(path) {
        None => {
            return Err(RemovalError::OpenWorktreeRepository);
        },
        Some(x) => x,
    };
    let gitdir = match repo_gitdir(&repo) {
        None => {
            return Err(RemovalError::Locate { cause: LocateError::ParentDirectory });
        },
        Some(x) => x,
    };
    match plan_removal(branch, path, gitdir.as_str()) {
        Ok(p) => Ok(p),
        Err(e) => Err(RemovalError::Locate { cause: e }),
    }
}

/// Perform the branch-deletion step: open the main repository and delete the
/// local branch if it exists. Every outcome is one of the three
/// branch-related events.
pub fn delete_branch_step(main_root: &str, branch: &str) -> (r: StepEvent)
    ensures
        r is BranchDeleted || r is BranchMissing || r is Failure,
{
    match open_repo(main_root) {
        None => StepEvent::Failure { message: String::from_str("Failed to open main repository") },
        Some(repo) => match delete_local_branch(&repo, branch) {
            Ok(true) => StepEvent::BranchDeleted,
            Ok(false) => StepEvent::BranchMissing,
            Err(m) => StepEvent::Failure { message: m },
        },
    }
}

} // verus!
