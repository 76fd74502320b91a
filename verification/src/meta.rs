//! MetadataCollector: per-worktree last-commit time and human-relative age,
//! collected in parallel fan-out across the worktrees.

use vstd::prelude::*;
use crate::age::{spec_age_label, age_label};
use crate::gitcalls::{open_repo, head_commit_info, now_unix};
use crate::locate::WorktreeRef;
use rayon::iter::{IntoParallelIterator, ParallelIterator};

verus! {

/// The metadata of one worktree. `last_commit_unix_time` is absent when the
/// worktree has no resolvable history, and such a worktree must sort as
/// oldest; its age label is then the literal "unknown".
pub struct WorktreeMetadata {
    pub branch: String,
    pub path: String,
    pub last_commit_unix_time: Option<i64>,
    pub relative_age_label: String,
}

/// The metadata carries its worktree's identity unchanged, and its age label
/// is the relative age of its timestamp seen from some wall-clock instant —
/// or the literal "unknown" when no timestamp resolved.
pub open spec fn spec_metadata_consistent(m: WorktreeMetadata, r: WorktreeRef) -> bool {
    &&& m.branch@ == r.branch@
    &&& m.path@ == r.path@
    &&& m.last_commit_unix_time is Some ==> exists|now: int| m.relative_age_label@
        == #[trigger] spec_age_label(now, m.last_commit_unix_time.unwrap() as int)
    &&& m.last_commit_unix_time is None ==> m.relative_age_label@ == "unknown"@
}

/// Collect one worktree's metadata. An unreadable repository, an
/// unresolvable head or an unresolvable commit each degrade to an absent
/// timestamp with the age label "unknown" rather than failing.
pub fn collect_metadata(r: &WorktreeRef) -> (m: WorktreeMetadata)
    ensures
        spec_metadata_consistent(m, *r),
{
    let info = match open_repo(r.path.as_str()) {
        None => None,
        Some(repo) => head_commit_info(&repo),
    };
    match info {
        Some((ts, _)) => {
            let now = now_unix();
            let label = age_label(now, ts);
            let m = WorktreeMetadata {
                branch: r.branch.clone(),
                path: r.path.clone(),
                last_commit_unix_time: Some(ts),
                relative_age_label: label,
            };
            proof {
                assert(m.relative_age_label@ == spec_age_label(
                    now as int,
                    m.last_commit_unix_time.unwrap() as int,
                ));
            }
            m
        },
        None => {
            let m = WorktreeMetadata {
                branch: r.branch.clone(),
                path: r.path.clone(),
                last_commit_unix_time: None,
                relative_age_label: String::from_str("unknown"),
            };
            proof {
                assert(spec_metadata_consistent(m, *r));
            }
            m
        },
    }
}

/// Relies on rayon's IntoParallelIterator::into_par_iter, ParallelIterator::
/// map and collect over an indexed parallel iterator: the closure is applied
/// to every element and the results are collected in input order, so the
/// output has one metadata record per input reference, in order, each
/// produced by the verified `collect_metadata` and thus meeting its
/// postcondition.
#[verifier::external_body]
fn par_collect(refs: Vec<WorktreeRef>) -> (r: Vec<WorktreeMetadata>)
    ensures
        r@.len() == refs@.len(),
        forall|i: int| 0 <= i < refs@.len() ==> spec_metadata_consistent(
            #[trigger] r@[i],
            refs@[i],
        ),
{
    refs.into_par_iter().map(|w| collect_metadata(&w)).collect()
}

/// Collect metadata for every worktree, in parallel fan-out with no shared
/// mutable state between the per-worktree calls.
pub fn collect_all(refs: Vec<WorktreeRef>) -> (r: Vec<WorktreeMetadata>)
    ensures
        r@.len() == refs@.len(),
        forall|i: int| 0 <= i < refs@.len() ==> spec_metadata_consistent(
            #[trigger] r@[i],
            refs@[i],
        ),
{
    par_collect(refs)
}

} // verus!
