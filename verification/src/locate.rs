//! RepositoryLocator: derive the main repository root from an administrative
//! (metadata) directory path, and enumerate the worktrees of the main
//! repository, skipping any whose head cannot be resolved.

use vstd::prelude::*;
use crate::strutil::{
    spec_parent_dir, spec_ends_with_component, parent_dir, ends_with_component, str_ends_with,
};
use crate::gitcalls::{
    open_repo, open_repo_from_env, repo_gitdir, head_branch_shorthand, worktree_names,
    worktree_root_path,
};

verus! {

/// Identifies one worktree: its branch and its checkout directory.
pub struct WorktreeRef {
    pub branch: String,
    pub path: String,
}

/// A fatal discovery failure: the repository or its main root cannot be
/// resolved. There is no partial result at this stage.
#[derive(Clone, Copy, Debug, PartialEq, Eq, Structural)]
pub enum LocateError {
    OpenRepository,
    ParentDirectory,
    MainRepositoryPath,
    RepositoryParent,
    OpenMainRepository,
}

impl LocateError {
    /// The diagnostic line for each failure.
    pub open spec fn message_view(self) -> Seq<char> {
        match self {
            LocateError::OpenRepository => "Failed to open git repository"@,
            LocateError::ParentDirectory => "Failed to get repository parent directory"@,
            LocateError::MainRepositoryPath => "Failed to get main repository path"@,
            LocateError::RepositoryParent => "Failed to get repository parent"@,
            LocateError::OpenMainRepository => "Failed to open main repository"@,
        }
    }

    /// A diagnostic line describing the failure.
    pub fn message(&self) -> (r: String)
        ensures
            r@ == self.message_view(),
    {
        match *self {
            LocateError::OpenRepository => String::from_str("Failed to open git repository"),
            LocateError::ParentDirectory => String::from_str(
                "Failed to get repository parent directory",
            ),
            LocateError::MainRepositoryPath => String::from_str(
                "Failed to get main repository path",
            ),
            LocateError::RepositoryParent => String::from_str("Failed to get repository parent"),
            LocateError::OpenMainRepository => String::from_str("Failed to open main repository"),
        }
    }
}

/// The main repository root derived from an administrative directory path
/// `g`: one level up from `g` is the common directory; if that ends in the
/// worktree-administrative container ".git/worktrees", the root is two more
/// levels up; if it ends in ".git", one more level up; otherwise it is the
/// root itself.
pub open spec fn spec_main_root(g: Seq<char>) -> Result<Seq<char>, LocateError> {
    match spec_parent_dir(g) {
        None => Err(LocateError::ParentDirectory),
        Some(c) => if spec_ends_with_component(c, ".git/worktrees"@) {
            match spec_parent_dir(c) {
                None => Err(LocateError::MainRepositoryPath),
                Some(p1) => match spec_parent_dir(p1) {
                    None => Err(LocateError::MainRepositoryPath),
                    Some(p2) => Ok(p2),
                },
            }
        } else if spec_ends_with_component(c, ".git"@) {
            match spec_parent_dir(c) {
                None => Err(LocateError::RepositoryParent),
                Some(p) => Ok(p),
            }
        } else {
            Ok(c)
        },
    }
}

/// Derive the main repository root from the administrative directory path
/// `gitdir` (see `spec_main_root`).
pub fn main_root_of(gitdir: &str) -> (r: Result<String, LocateError>)
    ensures
        match r {
            Ok(root) => spec_main_root(gitdir@) == Ok::<Seq<char>, LocateError>(root@),
            Err(e) => spec_main_root(gitdir@) == Err::<Seq<char>, LocateError>(e),
        },
{
    proof {
        reveal_strlit(".git/worktrees");
        reveal_strlit("/.git/worktrees");
        reveal_strlit(".git");
        reveal_strlit("/.git");
        assert("/.git/worktrees"@ =~= seq!['/'] + ".git/worktrees"@);
        assert("/.git"@ =~= seq!['/'] + ".git"@);
    }
    let c = match parent_dir(gitdir) {
        None => {
            return Err(LocateError::ParentDirectory);
        },
        Some(c) => c,
    };
    if ends_with_component(c.as_str(), ".git/worktrees", "/.git/worktrees") {
        match parent_dir(c.as_str()) {
            None => Err(LocateError::MainRepositoryPath),
            Some(p1) => match parent_dir(p1.as_str()) {
                None => Err(LocateError::MainRepositoryPath),
                Some(p2) => Ok(p2),
            },
        }
    } else if ends_with_component(c.as_str(), ".git", "/.git") {
        match parent_dir(c.as_str()) {
            None => Err(LocateError::RepositoryParent),
            Some(p) => Ok(p),
        }
    } else {
        Ok(c)
    }
}

/// A worktree checkout path as stored: any trailing "/.git" metadata-
/// directory suffix is stripped.
pub open spec fn spec_strip_dot_git(p: Seq<char>) -> Seq<char> {
    if p.len() >= 5 && p.subrange(p.len() - 5, p.len() as int) == "/.git"@ {
        p.subrange(0, p.len() - 5)
    } else {
        p
    }
}

/// Strip a trailing "/.git" suffix (see `spec_strip_dot_git`).
pub fn strip_dot_git(p: &str) -> (r: String)
    ensures
        r@ == spec_strip_dot_git(p@),
{
    proof {
        reveal_strlit("/.git");
    }
    if str_ends_with(p, "/.git") {
        let n = p.unicode_len();
        p.substring_char(0, n - 5).to_owned()
    } else {
        p.to_owned()
    }
}

/// The worktree references contributed by the listed entries, in order: one
/// per entry whose head branch could be resolved; an entry whose branch is
/// absent contributes nothing.
pub open spec fn spec_included(entries: Seq<(Option<String>, String)>) -> Seq<(Seq<char>, Seq<char>)>
    decreases entries.len(),
{
    if entries.len() == 0 {
        Seq::empty()
    } else {
        let rest = spec_included(entries.drop_last());
        match entries.last().0 {
            Some(b) => rest.push((b@, entries.last().1@)),
            None => rest,
        }
    }
}

/// The full listing: the main checkout first (when its branch resolved),
/// then the included worktree entries.
pub open spec fn spec_listing(
    main_root: Seq<char>,
    main_branch: Option<String>,
    entries: Seq<(Option<String>, String)>,
) -> Seq<(Seq<char>, Seq<char>)> {
    (match main_branch {
        Some(b) => seq![(b@, main_root)],
        None => Seq::empty(),
    }) + spec_included(entries)
}

/// The branch/path views of a sequence of worktree references.
pub open spec fn spec_ref_views(v: Seq<WorktreeRef>) -> Seq<(Seq<char>, Seq<char>)> {
    v.map_values(|w: WorktreeRef| (w.branch@, w.path@))
}

/// Assemble the worktree references from the raw listing data: the main
/// checkout (if its branch resolved) followed by each entry whose own head
/// branch resolved; the rest are silently skipped.
pub fn refs_from_listing(
    main_root: &String,
    main_branch: Option<String>,
    entries: Vec<(Option<String>, String)>,
) -> (r: Vec<WorktreeRef>)
    ensures
        spec_ref_views(r@) == spec_listing(main_root@, main_branch, entries@),
{
    let mut r: Vec<WorktreeRef> = Vec::new();
    match main_branch {
        Some(b) => {
            r.push(WorktreeRef { branch: b, path: main_root.clone() });
        },
        None => {},
    }
    proof {
        assert(entries@.subrange(0, 0) =~= Seq::<(Option<String>, String)>::empty());
        assert(spec_ref_views(r@) =~= spec_listing(main_root@, main_branch, entries@.subrange(0, 0)));
    }
    let n = entries.len();
    let mut i: usize = 0;
    while i < n
        invariant
            i <= n,
            n == entries@.len(),
            spec_ref_views(r@) == spec_listing(main_root@, main_branch, entries@.subrange(0, i as int)),
        decreases n - i,
    {
        let branch_opt: Option<String> = match &entries[i].0 {
            Some(b) => Some(b.clone()),
            None => None,
        };
        let path = entries[i].1.clone();
        proof {
            assert(entries@.subrange(0, i + 1).drop_last() =~= entries@.subrange(0, i as int));
            assert(entries@.subrange(0, i + 1).last() == entries@[i as int]);
            assert(branch_opt == entries@[i as int].0);
        }
        match branch_opt {
            Some(b) => {
                let ghost old_r = r@;
                let w = WorktreeRef { branch: b, path };
                let ghost gw = w;
                r.push(w);
                proof {
                    assert(spec_ref_views(r@) =~= spec_ref_views(old_r).push(
                        (gw.branch@, gw.path@),
                    ));
                    assert(spec_included(entries@.subrange(0, i + 1)) == spec_included(
                        entries@.subrange(0, i as int),
                    ).push((gw.branch@, gw.path@)));
                    assert(spec_ref_views(r@) =~= spec_listing(
                        main_root@,
                        main_branch,
                        entries@.subrange(0, i + 1),
                    ));
                }
            },
            None => {
                proof {
                    assert(spec_included(entries@.subrange(0, i + 1)) == spec_included(
                        entries@.subrange(0, i as int),
                    ));
                    assert(spec_ref_views(r@) =~= spec_listing(
                        main_root@,
                        main_branch,
                        entries@.subrange(0, i + 1),
                    ));
                }
            },
        }
        i = i + 1;
    }
    proof {
        assert(entries@.subrange(0, n as int) =~= entries@);
    }
    r
}

/// Law: a worktree whose head cannot be resolved is omitted entirely — if
/// every listed entry under path `p` carries no branch, then no included
/// reference carries path `p`.
pub proof fn lemma_unresolved_head_omitted(entries: Seq<(Option<String>, String)>, p: Seq<char>)
    requires
        forall|j: int| 0 <= j < entries.len() && (#[trigger] entries[j]).1@ == p ==> entries[j].0 is None,
    ensures
        forall|i: int| 0 <= i < spec_included(entries).len() ==> (#[trigger] spec_included(
            entries,
        )[i]).1 != p,
    decreases entries.len(),
{
    if entries.len() > 0 {
        let rest = entries.drop_last();
        assert forall|j: int| 0 <= j < rest.len() && (#[trigger] rest[j]).1@ == p implies rest[j].0 is None by {
            assert(rest[j] == entries[j]);
        }
        lemma_unresolved_head_omitted(rest, p);
        let lst = entries.last();
        assert(lst == entries[entries.len() - 1]);
        match lst.0 {
            Some(b) => {
                if lst.1@ == p {
                    assert(false);
                }
                assert(spec_included(entries) == spec_included(rest).push((b@, lst.1@)));
                assert forall|i: int| 0 <= i < spec_included(entries).len() implies (
                #[trigger] spec_included(entries)[i]).1 != p by {
                    if i < spec_included(rest).len() {
                        assert(spec_included(entries)[i] == spec_included(rest)[i]);
                    } else {
                        assert(spec_included(entries)[i] == (b@, lst.1@));
                    }
                }
            },
            None => {
                assert(spec_included(entries) == spec_included(rest));
                assert forall|i: int| 0 <= i < spec_included(entries).len() implies (
                #[trigger] spec_included(entries)[i]).1 != p by {
                    assert(spec_included(entries)[i] == spec_included(rest)[i]);
                }
            },
        }
    }
}

/// Discover the repository reachable from the environment, derive the main
/// repository root, and enumerate the main checkout plus every registered
/// worktree whose head branch resolves. Any unreadable repository or
/// administrative structure at the root level aborts the whole discovery;
/// a worktree entry whose own head cannot be resolved is silently skipped.
pub fn collect_worktrees() -> (r: Result<Vec<WorktreeRef>, LocateError>)
    ensures
        match r {
            Ok(v) => exists|root: String, mb: Option<String>, entries: Seq<(Option<String>, String)>|
                spec_ref_views(v@) == #[trigger] spec_listing(root@, mb, entries),
            Err(e) => true,
        },
{
    let repo = match open_repo_from_env() {
        None => {
            return Err(LocateError::OpenRepository);
        },
        Some(x) => x,
    };
    let gitdir = match repo_gitdir(&repo) {
        None => {
            return Err(LocateError::ParentDirectory);
        },
        Some(x) => x,
    };
    let main_root = match main_root_of(gitdir.as_str()) {
        Err(e) => {
            return Err(e);
        },
        Ok(x) => x,
    };
    let main_repo = match open_repo(main_root.as_str()) {
        None => {
            return Err(LocateError::OpenMainRepository);
        },
        Some(x) => x,
    };
    let main_branch = head_branch_shorthand(&main_repo);
    let names = worktree_names(&main_repo);
    let mut entries: Vec<(Option<String>, String)> = Vec::new();
    let n = names.len();
    let mut i: usize = 0;
    while i < n
        invariant
            i <= n,
            n == names@.len(),
        decreases n - i,
    {
        match worktree_root_path(&main_repo, names[i].as_str()) {
            Some(raw) => {
                let cleaned = strip_dot_git(raw.as_str());
                let branch_opt = match open_repo(cleaned.as_str()) {
                    Some(wt_repo) => head_branch_shorthand(&wt_repo),
                    None => None,
                };
                entries.push((branch_opt, cleaned));
            },
            None => {},
        }
        i = i + 1;
    }
    let ghost g_root = main_root;
    let ghost g_mb = main_branch;
    let ghost g_entries = entries@;
    let v = refs_from_listing(&main_root, main_branch, entries);
    proof {
        assert(spec_ref_views(v@) == spec_listing(g_root@, g_mb, g_entries));
    }
    Ok(v)
}

} // verus!
