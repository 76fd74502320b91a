use wtm_select::gitcalls::{DeltaKind, DiffSummary};
use wtm_select::locate::LocateError;
use wtm_select::preview::{render_preview, status_code, delta_code, PreviewData};
use wtm_select::removal::{
    plan_removal, removal_next, removal_start, RemovalAction, RemovalStage, StepEvent,
};

fn empty_data() -> PreviewData {
    PreviewData {
        head: None,
        statuses: None,
        commits: Vec::new(),
        baseline_found: false,
        diff: None,
    }
}

const RULE: &str =
    "\u{2500}\u{2500}\u{2500}\u{2500}\u{2500}\u{2500}\u{2500}\u{2500}\u{2500}\u{2500}\u{2500}\u{2500}\u{2500}\u{2500}\u{2500}\u{2500}\u{2500}\u{2500}\u{2500}\u{2500}\u{2500}\u{2500}\u{2500}\u{2500}\u{2500}\u{2500}\u{2500}\u{2500}\u{2500}\u{2500}\u{2500}\u{2500}\u{2500}\u{2500}\u{2500}\u{2500}\u{2500}\u{2500}\u{2500}\u{2500}\u{2500}\u{2500}\u{2500}\u{2500}\u{2500}\u{2500}\u{2500}\u{2500}\u{2500}\u{2500}\u{2500}\n";

#[test]
fn unopened_repository_renders_error_line_only() {
    let d = empty_data();
    let text = render_preview("b", "/p", false, &d, 0);
    assert_eq!(
        text,
        "\u{1f333} Branch: b\n\n\u{1f4c1} Path: /p\n\nError: Cannot access worktree\n"
    );
}

#[test]
fn preview_is_idempotent_for_identical_data() {
    let d = PreviewData {
        head: Some((1000, Some("fix the widget".to_string()))),
        statuses: Some(vec![(256, Some("src/widget.rs".to_string()))]),
        commits: vec![(
            "0123456789abcdef0123456789abcdef01234567".to_string(),
            Some("fix the widget".to_string()),
        )],
        baseline_found: false,
        diff: None,
    };
    let d2 = PreviewData {
        head: Some((1000, Some("fix the widget".to_string()))),
        statuses: Some(vec![(256, Some("src/widget.rs".to_string()))]),
        commits: vec![(
            "0123456789abcdef0123456789abcdef01234567".to_string(),
            Some("fix the widget".to_string()),
        )],
        baseline_found: false,
        diff: None,
    };
    let now = 1000 + 7200;
    assert_eq!(
        render_preview("b", "/p", true, &d, now),
        render_preview("b", "/p", true, &d2, now)
    );
}

#[test]
fn full_preview_layout_is_exact() {
    let d = PreviewData {
        head: Some((1000, Some("add feature".to_string()))),
        statuses: Some(Vec::new()),
        commits: vec![(
            "0123456789abcdef0123456789abcdef01234567".to_string(),
            Some("add feature".to_string()),
        )],
        baseline_found: true,
        diff: Some(DiffSummary {
            files_changed: 2,
            insertions: 10,
            deletions: 3,
            deltas: vec![
                (DeltaKind::Added, Some("new.rs".to_string())),
                (DeltaKind::Modified, Some("old.rs".to_string())),
            ],
        }),
    };
    let now = 1000 + 2 * 86400;
    let text = render_preview("feat", "/w/feat", true, &d, now);
    let expected = format!(
        "\u{1f333} Branch: feat\n\n\u{1f4c1} Path: /w/feat\n\n\
         \u{1f550} Last commit: 2d ago: add feature\n\n\
         \u{1f4dd} Changed files:\n{RULE}  \u{2728} Working tree clean\n\n\
         \u{1f4dc} Recent commits:\n{RULE}  0123456 add feature\n\n\
         \u{1f4ca} Diff vs origin/develop:\n{RULE}  2 file(s) changed, +10 -3\n  A new.rs\n  M old.rs\n"
    );
    assert_eq!(text, expected);
}

#[test]
fn absent_baseline_is_stated_explicitly() {
    let d = PreviewData {
        head: Some((5, None)),
        statuses: None,
        commits: Vec::new(),
        baseline_found: false,
        diff: None,
    };
    let text = render_preview("b", "/p", true, &d, 10);
    assert!(text.contains("  (origin/develop not found)\n"));
    // A missing summary falls back to the placeholder.
    assert!(text.contains("No message"));
}

#[test]
fn status_section_truncates_at_ten_with_remainder() {
    let entries: Vec<(u32, Option<String>)> =
        (0..12).map(|i| (128u32, Some(format!("file{i}")))).collect();
    let d = PreviewData {
        head: None,
        statuses: Some(entries),
        commits: Vec::new(),
        baseline_found: false,
        diff: None,
    };
    let text = render_preview("b", "/p", true, &d, 0);
    assert!(text.contains("  A file0\n"));
    assert!(text.contains("  A file9\n"));
    assert!(!text.contains("file10"));
    assert!(text.contains("  ... and 2 more\n"));
}

#[test]
fn diff_section_truncates_at_fifteen_and_reports_empty() {
    let deltas: Vec<(DeltaKind, Option<String>)> =
        (0..17).map(|i| (DeltaKind::Modified, Some(format!("f{i}")))).collect();
    let d = PreviewData {
        head: Some((0, None)),
        statuses: None,
        commits: Vec::new(),
        baseline_found: true,
        diff: Some(DiffSummary { files_changed: 17, insertions: 1, deletions: 1, deltas }),
    };
    let text = render_preview("b", "/p", true, &d, 0);
    assert!(text.contains("  M f14\n"));
    assert!(!text.contains("  M f15\n"));
    assert!(text.contains("  ... and 2 more files\n"));

    let d_empty = PreviewData {
        head: Some((0, None)),
        statuses: None,
        commits: Vec::new(),
        baseline_found: true,
        diff: Some(DiffSummary {
            files_changed: 0,
            insertions: 0,
            deletions: 0,
            deltas: Vec::new(),
        }),
    };
    let text = render_preview("b", "/p", true, &d_empty, 0);
    assert!(text.contains("  0 file(s) changed, +0 -0\n"));
    assert!(text.contains("  \u{2728} No changes from origin/develop\n"));
}

#[test]
fn status_codes_follow_classification_priority() {
    assert_eq!(status_code(128), "A");
    assert_eq!(status_code(1), "A");
    assert_eq!(status_code(256), "M");
    assert_eq!(status_code(2 | 512), "M");
    assert_eq!(status_code(512), "D");
    assert_eq!(status_code(2048 | 32768), "R");
    assert_eq!(status_code(32768), "C");
    assert_eq!(status_code(0), "?");
    assert_eq!(status_code(16384), "?");
}

#[test]
fn delta_codes_cover_every_kind() {
    assert_eq!(delta_code(&DeltaKind::Added), "A");
    assert_eq!(delta_code(&DeltaKind::Deleted), "D");
    assert_eq!(delta_code(&DeltaKind::Modified), "M");
    assert_eq!(delta_code(&DeltaKind::Renamed), "R");
    assert_eq!(delta_code(&DeltaKind::Copied), "C");
    assert_eq!(delta_code(&DeltaKind::Other), "?");
}

#[test]
fn removal_plan_computes_admin_entry() {
    let plan = plan_removal("feature", "/w/feature", "/repo/.git/worktrees/feature/").unwrap();
    assert_eq!(plan.worktree_dir, "/w/feature");
    assert_eq!(plan.main_root, "/repo");
    assert_eq!(plan.admin_dir, "/repo/.git/worktrees/feature");
    assert_eq!(plan.branch, "feature");
}

#[test]
fn removal_plan_surfaces_root_failure() {
    let e = match plan_removal("b", "/w/b", "/") {
        Err(e) => e,
        Ok(_) => panic!("expected a planning failure"),
    };
    assert_eq!(e, LocateError::ParentDirectory);
}

#[test]
fn removal_tolerates_absent_admin_dir_and_missing_branch() {
    let plan = plan_removal("feature", "/w/feature", "/repo/.git/worktrees/feature/").unwrap();
    let (stage, action) = removal_start(&plan);
    assert_eq!(stage, RemovalStage::Start);
    assert!(matches!(action, RemovalAction::RemoveDir { ref dir } if dir == "/w/feature"));
    // Directory deletion succeeds.
    let (stage, action) = removal_next(&plan, stage, &StepEvent::Removed);
    assert_eq!(stage, RemovalStage::DirRemoved);
    assert!(
        matches!(action, RemovalAction::RemoveAdminDir { ref dir } if dir == "/repo/.git/worktrees/feature")
    );
    // The administrative entry is already absent: not an error.
    let (stage, action) = removal_next(&plan, stage, &StepEvent::AlreadyAbsent);
    assert_eq!(stage, RemovalStage::AdminHandled);
    assert!(matches!(action, RemovalAction::DeleteBranch { ref name } if name == "feature"));
    // No local branch of that name exists: completes without deleting any.
    let (done, action) = removal_next(&plan, stage, &StepEvent::BranchMissing);
    assert_eq!(done, RemovalStage::Done { branch_deleted: false });
    assert!(matches!(action, RemovalAction::Stop));
    // And when the branch does exist, it is deleted.
    let (done, _) = removal_next(&plan, stage, &StepEvent::BranchDeleted);
    assert_eq!(done, RemovalStage::Done { branch_deleted: true });
}

#[test]
fn removal_stops_on_step_failure() {
    let plan = plan_removal("b", "/w/b", "/repo/.git/worktrees/b/").unwrap();
    let (stage, _) = removal_start(&plan);
    let (stage, action) = removal_next(
        &plan,
        stage,
        &StepEvent::Failure { message: "Failed to remove worktree directory".to_string() },
    );
    assert_eq!(stage, RemovalStage::Failed);
    assert!(matches!(action, RemovalAction::Stop));
    // A failed workflow stays failed.
    let (stage, _) = removal_next(&plan, stage, &StepEvent::Removed);
    assert_eq!(stage, RemovalStage::Failed);
}
