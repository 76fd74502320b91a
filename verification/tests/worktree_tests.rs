use wtm_select::item::WorktreeItem;

#[test]
fn test_worktree_item_text_format() {
    let item = WorktreeItem::new(
        "feature-branch".to_string(),
        "/path/to/worktree".to_string(),
        "worktree".to_string(),
        "2h ago".to_string(),
    );

    // text() now returns formatted display string
    let text = item.text();
    // Format: "{:<10} {:<40} {}"
    assert!(text.contains("2h ago"));
    assert!(text.contains("feature-branch"));
    assert!(text.contains("worktree"));
}

#[test]
fn test_search_format_vs_display_format() {
    let item = WorktreeItem::new(
        "feature-branch".to_string(),
        "/path/to/worktree".to_string(),
        "worktree".to_string(),
        "2h ago".to_string(),
    );

    // text() and display() now use the same format
    let text = item.text();

    // Should be formatted with fixed widths
    assert!(text.starts_with("2h ago"));
    assert!(text.contains("feature-branch"));
    assert!(text.contains("worktree"));
}

#[test]
fn test_display_alignment() {
    // Test various branch name lengths
    let test_cases = vec![
        ("main", "2h ago", "project"),
        (
            "feature-very-long-branch-name-that-exceeds-40-chars",
            "10d ago",
            "my-workspace",
        ),
        ("fix", "now", "dir"),
    ];

    for (branch, updated, dirname) in test_cases {
        let item = WorktreeItem::new(
            branch.to_string(),
            format!("/path/to/{dirname}"),
            dirname.to_string(),
            updated.to_string(),
        );

        // Verify the text format has fixed-width columns
        let search_text = item.text();
        // Format is now: updated (10 chars) | branch (40 chars) | dirname
        assert!(search_text.starts_with(updated));
        assert!(search_text.contains(&item.branch));
        assert!(search_text.contains(dirname));
    }
}
