//! The trusted boundary to the repository library and the clock: each
//! function here wraps one read-only (or, for branch deletion, one
//! destructive) outside query and hands the verified code plain values.
//! Results depend on the repository on disk and on the wall clock, so the
//! contracts promise only what holds of every outcome.

use vstd::prelude::*;

verus! {

#[verifier::external_type_specification]
#[verifier::external_body]
pub struct ExRepository(git2::Repository);

/// What one changed file of a baseline diff is: its classification and, when
/// representable, its path.
pub enum DeltaKind {
    Added,
    Deleted,
    Modified,
    Renamed,
    Copied,
    Other,
}

/// The plain content of one tree-to-tree diff: the three counters of its
/// stats and one entry per delta.
pub struct DiffSummary {
    pub files_changed: usize,
    pub insertions: usize,
    pub deletions: usize,
    pub deltas: Vec<(DeltaKind, Option<String>)>,
}

/// Relies on chrono::Local::now and chrono::DateTime::timestamp: the current
/// wall-clock time as unix seconds. Nothing can be promised of the clock.
#[verifier::external_body]
pub(crate) fn now_unix() -> i64 {
    chrono::Local::now().timestamp()
}

/// Relies on git2::Repository::open: the repository at `path`, or `None`
/// when it cannot be opened.
#[verifier::external_body]
pub(crate) fn open_repo(path: &str) -> Option<git2::Repository> {
    git2::Repository::open(path).ok()
}

/// Relies on git2::Repository::open_from_env and git2::Repository::discover:
/// the repository reachable from the environment or the current directory.
#[verifier::external_body]
pub(crate) fn open_repo_from_env() -> Option<git2::Repository> {
    git2::Repository::open_from_env().or_else(|_| git2::Repository::discover(".")).ok()
}

/// Relies on git2::Repository::path: the repository's administrative
/// (metadata) directory, or `None` when it is not representable as text.
#[verifier::external_body]
pub(crate) fn repo_gitdir(repo: &git2::Repository) -> Option<String> {
    repo.path().to_str().map(|s| s.to_owned())
}

/// Relies on git2::Repository::head and git2::Reference::shorthand: the
/// shorthand name of the current head reference, or `None` when the head or
/// its name cannot be resolved.
#[verifier::external_body]
pub(crate) fn head_branch_shorthand(repo: &git2::Repository) -> Option<String> {
    repo.head().ok()?.shorthand().ok().map(|s| s.to_owned())
}

/// Relies on git2::Repository::head, git2::Reference::peel_to_commit,
/// git2::Commit::time (unix seconds) and git2::Commit::summary: the head
/// commit's timestamp and summary line, or `None` when the head commit
/// cannot be resolved.
#[verifier::external_body]
pub(crate) fn head_commit_info(repo: &git2::Repository) -> Option<(i64, Option<String>)> {
    let commit = repo.head().ok()?.peel_to_commit().ok()?;
    let summary = commit.summary().ok().flatten().map(|s| s.to_owned());
    Some((commit.time().seconds(), summary))
}

/// Relies on git2::Repository::statuses with
/// git2::StatusOptions::include_untracked, git2::StatusEntry::status (a
/// bitset, handed on as its raw bits) and git2::StatusEntry::path: one entry
/// per changed or untracked file, or `None` when the status query fails.
#[verifier::external_body]
pub(crate) fn status_bits(repo: &git2::Repository) -> Option<Vec<(u32, Option<String>)>> {
    let mut opts = git2::StatusOptions::new();
    opts.include_untracked(true);
    let statuses = repo.statuses(Some(&mut opts)).ok()?;
    Some(
        statuses.iter().map(
            |e| (e.status().bits(), e.path().ok().map(|p| p.to_owned())),
        ).collect(),
    )
}

/// Relies on git2::Repository::revwalk, git2::Revwalk::push_head,
/// git2::Repository::find_commit, git2::Oid's 40-character lowercase-hex
/// rendering, and git2::Commit::summary: at most `n` commits reachable from
/// the head, most recent first.
#[verifier::external_body]
pub(crate) fn recent_commit_lines(repo: &git2::Repository, n: usize) -> (r: Vec<
    (String, Option<String>),
>)
    ensures
        r@.len() <= n,
        forall|i: int| 0 <= i < r@.len() ==> (#[trigger] r@[i]).0@.len() == 40,
{
    let mut walk = match repo.revwalk() {
        Ok(w) => w,
        Err(_) => return Vec::new(),
    };
    let _ = walk.push_head();
    walk.take(n).flatten().filter_map(
        |oid| repo.find_commit(oid).ok().map(
            |c| (oid.to_string(), c.summary().ok().flatten().map(|s| s.to_owned())),
        ),
    ).collect()
}

/// Relies on git2::Repository::find_reference: whether the named reference
/// exists in the repository.
#[verifier::external_body]
pub(crate) fn has_reference(repo: &git2::Repository, name: &str) -> bool {
    repo.find_reference(name).is_ok()
}

#[verifier::external_type_specification]
#[verifier::external_body]
pub struct ExDiff<'a>(git2::Diff<'a>);

/// Relies on git2::Repository::head and find_reference,
/// git2::Reference::peel_to_commit, git2::Commit::tree, and
/// git2::Repository::diff_tree_to_tree (baseline tree to head tree): the
/// diff of the head against the named baseline, or `None` when any of those
/// queries fails.
#[verifier::external_body]
fn compute_baseline_diff<'a>(repo: &'a git2::Repository, refname: &str) -> Option<git2::Diff<'a>> {
    let head = repo.head().ok()?.peel_to_commit().ok()?;
    let base = repo.find_reference(refname).ok()?.peel_to_commit().ok()?;
    repo.diff_tree_to_tree(Some(&base.tree().ok()?), Some(&head.tree().ok()?), None).ok()
}

/// Relies on git2::Diff::stats: the files-changed, insertion and deletion
/// counters of the diff, or `None` when they cannot be computed.
#[verifier::external_body]
fn diff_stat_counts(diff: &git2::Diff<'_>) -> Option<(usize, usize, usize)> {
    let s = diff.stats().ok()?;
    Some((s.files_changed(), s.insertions(), s.deletions()))
}

/// Relies on git2::Diff::deltas, git2::DiffDelta::status (one arm per
/// variant) and the delta's new-file path (falling back to the old-file
/// path): one classification/path pair per delta, in diff order.
#[verifier::external_body]
fn diff_delta_entries(diff: &git2::Diff<'_>) -> Vec<(DeltaKind, Option<String>)> {
    diff.deltas().map(|d| {
        let kind = match d.status() {
            git2::Delta::Added => DeltaKind::Added,
            git2::Delta::Deleted => DeltaKind::Deleted,
            git2::Delta::Modified => DeltaKind::Modified,
            git2::Delta::Renamed => DeltaKind::Renamed,
            git2::Delta::Copied => DeltaKind::Copied,
            _ => DeltaKind::Other,
        };
        let path = d.new_file().path().or_else(|| d.old_file().path());
        (kind, path.map(|p| p.to_string_lossy().into_owned()))
    }).collect()
}

/// The diff of the head against the named baseline as plain values: the
/// three stat counters and one entry per delta, or `None` when the diff or
/// its stats cannot be computed.
pub(crate) fn diff_from_baseline(repo: &git2::Repository, refname: &str) -> Option<DiffSummary> {
    let diff = match compute_baseline_diff(repo, refname) {
        None => {
            return None;
        },
        Some(d) => d,
    };
    let (files_changed, insertions, deletions) = match diff_stat_counts(&diff) {
        None => {
            return None;
        },
        Some(c) => c,
    };
    let deltas = diff_delta_entries(&diff);
    Some(DiffSummary { files_changed, insertions, deletions, deltas })
}

/// Relies on git2::Repository::worktrees: the names of the worktrees
/// registered with the repository (an empty list when the listing fails or a
/// name is not representable as text).
#[verifier::external_body]
pub(crate) fn worktree_names(repo: &git2::Repository) -> Vec<String> {
    match repo.worktrees() {
        Ok(names) => names.iter().filter_map(|s| s.ok().flatten().map(|n| n.to_owned())).collect(),
        Err(_) => Vec::new(),
    }
}

/// Relies on git2::Repository::find_worktree and git2::Worktree::path: the
/// checkout directory of the named worktree, or `None` when it cannot be
/// resolved or is not representable as text.
#[verifier::external_body]
pub(crate) fn worktree_root_path(repo: &git2::Repository, name: &str) -> Option<String> {
    repo.find_worktree(name).ok()?.path().to_str().map(|s| s.to_owned())
}

/// Relies on git2::Repository::find_branch (local branches),
/// git2::Branch::delete, and git2::Error::message: `Ok(true)` when the local
/// branch existed and was deleted, `Ok(false)` when no such local branch
/// exists, and the deletion failure's message otherwise.
#[verifier::external_body]
pub(crate) fn delete_local_branch(repo: &git2::Repository, name: &str) -> Result<bool, String> {
    match repo.find_branch(name, git2::BranchType::Local) {
        Err(_) => Ok(false),
        Ok(mut branch) => match branch.delete() {
            Ok(()) => Ok(true),
            Err(e) => Err(e.message().to_owned()),
        },
    }
}

} // verus!
