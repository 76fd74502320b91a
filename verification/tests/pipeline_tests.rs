use wtm_select::age::age_label;
use wtm_select::item::WorktreeItem;
use wtm_select::locate::{main_root_of, refs_from_listing, strip_dot_git, LocateError};
use wtm_select::meta::WorktreeMetadata;
use wtm_select::stream::{build_entry, sort_by_recency, SelectionIndex, StreamEntry};
use wtm_select::strutil::{dirname, parent_dir, u64_to_dec};

fn meta(branch: &str, path: &str, time: Option<i64>, label: &str) -> WorktreeMetadata {
    WorktreeMetadata {
        branch: branch.to_string(),
        path: path.to_string(),
        last_commit_unix_time: time,
        relative_age_label: label.to_string(),
    }
}

#[test]
fn spans_recover_each_column() {
    let item = WorktreeItem::new(
        "feature-branch".to_string(),
        "/path/to/worktree".to_string(),
        "worktree".to_string(),
        "2h ago".to_string(),
    );
    let text = item.text();
    let ranges = item.get_matching_ranges();
    assert_eq!(ranges.len(), 3);
    // Age column: padded to 10.
    assert_eq!(ranges[0], (0, 10));
    assert_eq!(&text[0..10], "2h ago    ");
    // Branch column starts after the age column and one separator space.
    assert_eq!(ranges[1], (11, "feature-branch".len()));
    let (bs, bl) = ranges[1];
    assert_eq!(&text[bs..bs + bl], "feature-branch");
    // Directory column starts after the padded branch column and a space.
    assert_eq!(ranges[2], (11 + 40 + 1, "worktree".len()));
    let (ds, dl) = ranges[2];
    assert_eq!(&text[ds..ds + dl], "worktree");
    // The three spans and the fixed separators reproduce the whole line.
    let rebuilt = format!("{} {} {}", &text[0..10], format!("{:<40}", "feature-branch"), "worktree");
    assert_eq!(text, rebuilt);
}

#[test]
fn rendering_is_deterministic() {
    let a = WorktreeItem::new(
        "b".to_string(),
        "/p/d".to_string(),
        "d".to_string(),
        "now".to_string(),
    );
    let b = WorktreeItem::new(
        "b".to_string(),
        "/p/d".to_string(),
        "d".to_string(),
        "now".to_string(),
    );
    assert_eq!(a.text(), b.text());
    assert_eq!(a.get_matching_ranges(), b.get_matching_ranges());
}

#[test]
fn stream_order_is_recency_descending_absent_last() {
    let entries = vec![
        build_entry(&meta("old", "/w/old", Some(100), "3d ago")),
        build_entry(&meta("unknown", "/w/unknown", None, "unknown")),
        build_entry(&meta("new", "/w/new", Some(300), "1h ago")),
        build_entry(&meta("mid", "/w/mid", Some(200), "1d ago")),
    ];
    let sorted = sort_by_recency(entries);
    let order: Vec<&str> = sorted.iter().map(|e| e.item.branch.as_str()).collect();
    assert_eq!(order, vec!["new", "mid", "old", "unknown"]);
}

#[test]
fn negative_timestamps_sort_above_absent() {
    let entries = vec![
        build_entry(&meta("none", "/w/none", None, "unknown")),
        build_entry(&meta("neg", "/w/neg", Some(-5), "now")),
    ];
    let sorted = sort_by_recency(entries);
    assert_eq!(sorted[0].item.branch, "neg");
    assert_eq!(sorted[1].item.branch, "none");
}

#[test]
fn selection_index_recovers_identity() {
    let mut index = SelectionIndex::new();
    let item = WorktreeItem::new(
        "main".to_string(),
        "/repo".to_string(),
        "repo".to_string(),
        "1h ago".to_string(),
    );
    index.register(&item);
    let found = index.lookup(item.text().as_str());
    assert_eq!(found, Some(("main".to_string(), "/repo".to_string())));
    assert_eq!(index.lookup("no such line"), None);
}

#[test]
fn selection_index_last_registration_wins() {
    let mut index = SelectionIndex::new();
    let a = WorktreeItem::new(
        "same".to_string(),
        "/first".to_string(),
        "d".to_string(),
        "now".to_string(),
    );
    let b = WorktreeItem::new(
        "same".to_string(),
        "/second".to_string(),
        "d".to_string(),
        "now".to_string(),
    );
    assert_eq!(a.text(), b.text());
    index.register(&a);
    index.register(&b);
    let found = index.lookup(a.text().as_str()).unwrap();
    assert_eq!(found.1, "/second");
}

#[test]
fn main_streams_before_older_feature_and_cd_prints_main_path() {
    // A repository with worktrees `main` (commit 1 hour ago) and
    // `feature-x` (commit 3 days ago): `main` must stream first, and
    // selecting it yields exactly the main worktree's path.
    let now: i64 = 1_700_000_000;
    let main_meta = meta(
        "main",
        "/repo",
        Some(now - 3600),
        age_label(now, now - 3600).as_str(),
    );
    let feat_meta = meta(
        "feature-x",
        "/repo-feature-x",
        Some(now - 3 * 86400),
        age_label(now, now - 3 * 86400).as_str(),
    );
    assert_eq!(main_meta.relative_age_label, "1h ago");
    assert_eq!(feat_meta.relative_age_label, "3d ago");
    let sorted = sort_by_recency(vec![build_entry(&feat_meta), build_entry(&main_meta)]);
    assert_eq!(sorted[0].item.branch, "main");
    assert_eq!(sorted[1].item.branch, "feature-x");
    let mut index = SelectionIndex::new();
    let mut streamed: Vec<String> = Vec::new();
    for e in &sorted {
        index.register(&e.item);
        streamed.push(e.item.text());
    }
    let selected = &streamed[0];
    let (_branch, path) = index.lookup(selected.as_str()).unwrap();
    assert_eq!(path, "/repo");
}

#[test]
fn unresolvable_head_is_omitted_from_stream_and_index() {
    let entries = vec![
        (Some("alpha".to_string()), "/w/alpha".to_string()),
        (None, "/w/broken".to_string()),
        (Some("beta".to_string()), "/w/beta".to_string()),
    ];
    let refs = refs_from_listing(
        &"/repo".to_string(),
        Some("main".to_string()),
        entries,
    );
    let paths: Vec<&str> = refs.iter().map(|r| r.path.as_str()).collect();
    assert_eq!(paths, vec!["/repo", "/w/alpha", "/w/beta"]);
    // Nothing that was omitted can ever reach the index.
    let mut index = SelectionIndex::new();
    for r in &refs {
        let m = meta(r.branch.as_str(), r.path.as_str(), None, "unknown");
        let e = build_entry(&m);
        index.register(&e.item);
    }
    let broken = WorktreeItem::new(
        "broken".to_string(),
        "/w/broken".to_string(),
        "broken".to_string(),
        "unknown".to_string(),
    );
    assert_eq!(index.lookup(broken.text().as_str()), None);
}

#[test]
fn age_label_formats_days_hours_minutes_now() {
    let t: i64 = 1_000_000;
    assert_eq!(age_label(t, t), "now");
    assert_eq!(age_label(t + 59, t), "now");
    assert_eq!(age_label(t + 60, t), "1m ago");
    assert_eq!(age_label(t + 3599, t), "59m ago");
    assert_eq!(age_label(t + 3600, t), "1h ago");
    assert_eq!(age_label(t + 5 * 3600 + 7, t), "5h ago");
    assert_eq!(age_label(t + 86400, t), "1d ago");
    assert_eq!(age_label(t + 10 * 86400 + 3600, t), "10d ago");
    // A commit in the future reads as "now".
    assert_eq!(age_label(t, t + 50_000), "now");
}

#[test]
fn decimal_rendering_is_exact() {
    assert_eq!(u64_to_dec(0), "0");
    assert_eq!(u64_to_dec(7), "7");
    assert_eq!(u64_to_dec(42), "42");
    assert_eq!(u64_to_dec(1234567890), "1234567890");
}

#[test]
fn dirname_takes_final_segment() {
    assert_eq!(dirname("/path/to/worktree"), "worktree");
    assert_eq!(dirname("/path/to/worktree///"), "worktree");
    assert_eq!(dirname("plain"), "plain");
    assert_eq!(dirname("///"), "///");
}

#[test]
fn parent_dir_drops_final_segment() {
    assert_eq!(parent_dir("/repo/.git/"), Some("/repo".to_string()));
    assert_eq!(parent_dir("/repo/.git"), Some("/repo".to_string()));
    assert_eq!(parent_dir("/repo"), Some("/".to_string()));
    assert_eq!(parent_dir("/"), None);
    assert_eq!(parent_dir("plain"), None);
}

#[test]
fn main_root_from_primary_and_secondary_worktrees() {
    assert_eq!(main_root_of("/repo/.git/"), Ok("/repo".to_string()));
    assert_eq!(
        main_root_of("/repo/.git/worktrees/feature/"),
        Ok("/repo".to_string())
    );
    assert_eq!(main_root_of("/"), Err(LocateError::ParentDirectory));
}

#[test]
fn main_root_error_variants() {
    // The administrative container sits at the top: no two levels above it.
    assert_eq!(
        main_root_of(".git/worktrees/x/"),
        Err(LocateError::MainRepositoryPath)
    );
    // A bare metadata directory has no parent to climb to.
    assert_eq!(main_root_of(".git/x/"), Err(LocateError::RepositoryParent));
}

#[test]
fn main_root_component_boundaries() {
    // A metadata directory nested under ".git" climbs one more level.
    assert_eq!(main_root_of("/repo/.git/anything/"), Ok("/repo".to_string()));
    // "foo.git" is not the ".git" component: no extra climb.
    assert_eq!(main_root_of("/x/foo.git/y/"), Ok("/x/foo.git".to_string()));
}

#[test]
fn locate_error_messages() {
    assert_eq!(
        LocateError::OpenRepository.message(),
        "Failed to open git repository"
    );
    assert_eq!(
        LocateError::ParentDirectory.message(),
        "Failed to get repository parent directory"
    );
    assert_eq!(
        LocateError::MainRepositoryPath.message(),
        "Failed to get main repository path"
    );
    assert_eq!(
        LocateError::RepositoryParent.message(),
        "Failed to get repository parent"
    );
    assert_eq!(
        LocateError::OpenMainRepository.message(),
        "Failed to open main repository"
    );
}

#[test]
fn strip_dot_git_suffix_only() {
    assert_eq!(strip_dot_git("/w/feature/.git"), "/w/feature");
    assert_eq!(strip_dot_git("/w/feature"), "/w/feature");
    assert_eq!(strip_dot_git(".git"), ".git");
}

#[test]
fn long_inputs_keep_structure() {
    let branch = "feature-very-long-branch-name-that-exceeds-40-chars";
    let item = WorktreeItem::new(
        branch.to_string(),
        "/w/x".to_string(),
        "x".to_string(),
        "10d ago".to_string(),
    );
    let text = item.text();
    let ranges = item.get_matching_ranges();
    // The branch column is not truncated; the directory span still points
    // at the directory name.
    let (bs, bl) = ranges[1];
    assert_eq!(&text[bs..bs + bl], branch);
    let (ds, dl) = ranges[2];
    assert_eq!(&text[ds..ds + dl], "x");
    assert_eq!(ds, 11 + branch.len() + 1);
}

#[test]
fn empty_inputs_render() {
    let item = WorktreeItem::new(
        String::new(),
        String::new(),
        String::new(),
        String::new(),
    );
    let text = item.text();
    // Ten spaces, separator, forty spaces, separator, empty directory.
    assert_eq!(text.len(), 10 + 1 + 40 + 1);
    assert_eq!(item.get_matching_ranges()[0], (0, 10));
    assert_eq!(item.get_matching_ranges()[1], (11, 0));
    assert_eq!(item.get_matching_ranges()[2], (52, 0));
}

#[test]
fn entries_with_equal_length_survive_sort() {
    let metas = vec![
        meta("a", "/w/a", Some(5), "now"),
        meta("b", "/w/b", Some(5), "now"),
    ];
    let sorted = sort_by_recency(metas.iter().map(build_entry).collect::<Vec<StreamEntry>>());
    assert_eq!(sorted.len(), 2);
    let mut branches: Vec<&str> = sorted.iter().map(|e| e.item.branch.as_str()).collect();
    branches.sort();
    assert_eq!(branches, vec!["a", "b"]);
}
