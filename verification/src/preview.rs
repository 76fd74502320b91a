//! PreviewGenerator: the on-demand multi-section report for one worktree —
//! header, last commit, working-tree status, recent history, and divergence
//! from the first existing upstream baseline. Each section is independently
//! best-effort: a failure in one section never aborts the later ones.

use vstd::prelude::*;
use crate::age::spec_age_label;
use crate::age::age_label;
use crate::gitcalls::{
    DeltaKind, DiffSummary, open_repo, head_commit_info, status_bits, recent_commit_lines,
    has_reference, diff_from_baseline, now_unix,
};
use crate::strutil::{spec_dec, u64_to_dec};

verus! {

/// Bits flagging a new file in the index (1) or the working tree (128).
pub const STATUS_NEW_MASK: u32 = 129;

/// Bits flagging a modified file in the index (2) or the working tree (256).
pub const STATUS_MODIFIED_MASK: u32 = 258;

/// Bits flagging a deleted file in the index (4) or the working tree (512).
pub const STATUS_DELETED_MASK: u32 = 516;

/// Bits flagging a renamed file in the index (8) or the working tree (2048).
pub const STATUS_RENAMED_MASK: u32 = 2056;

/// Bit flagging a conflicted file (32768).
pub const STATUS_CONFLICTED_MASK: u32 = 32768;

/// The single-letter code of one working-tree status, checked in the fixed
/// classification priority: new, modified, deleted, renamed, conflicted,
/// unknown — where either the index state or the working-tree state flags a
/// condition.
pub open spec fn spec_status_code(bits: u32) -> Seq<char> {
    if bits & STATUS_NEW_MASK != 0 {
        "A"@
    } else if bits & STATUS_MODIFIED_MASK != 0 {
        "M"@
    } else if bits & STATUS_DELETED_MASK != 0 {
        "D"@
    } else if bits & STATUS_RENAMED_MASK != 0 {
        "R"@
    } else if bits & STATUS_CONFLICTED_MASK != 0 {
        "C"@
    } else {
        "?"@
    }
}

/// The single-letter code of one diff delta.
pub open spec fn spec_delta_code(k: DeltaKind) -> Seq<char> {
    match k {
        DeltaKind::Added => "A"@,
        DeltaKind::Deleted => "D"@,
        DeltaKind::Modified => "M"@,
        DeltaKind::Renamed => "R"@,
        DeltaKind::Copied => "C"@,
        DeltaKind::Other => "?"@,
    }
}

/// A possibly-absent text, with a fallback.
pub open spec fn spec_opt_str(o: Option<String>, fallback: Seq<char>) -> Seq<char> {
    match o {
        Some(s) => s@,
        None => fallback,
    }
}

/// One status line: two spaces, the status letter, a space, the file's path
/// (or "?" when it is not representable), and a newline.
pub open spec fn spec_status_line(e: (u32, Option<String>)) -> Seq<char> {
    "  "@ + spec_status_code(e.0) + " "@ + spec_opt_str(e.1, "?"@) + "\n"@
}

/// The first `k` status lines, concatenated.
pub open spec fn spec_status_lines(s: Seq<(u32, Option<String>)>, k: int) -> Seq<char>
    decreases k,
{
    if k <= 0 {
        Seq::empty()
    } else {
        spec_status_lines(s, k - 1) + spec_status_line(s[k - 1])
    }
}

/// The working-tree status section body: a clean-tree line when there is no
/// entry; otherwise at most 10 entry lines and, when more exist, a remainder
/// count. An unavailable status yields nothing.
pub open spec fn spec_status_section(sts: Option<Seq<(u32, Option<String>)>>) -> Seq<char> {
    match sts {
        None => Seq::empty(),
        Some(s) => if s.len() == 0 {
            "  \u{2728} Working tree clean\n"@
        } else {
            let shown = if s.len() > 10 { 10int } else { s.len() as int };
            spec_status_lines(s, shown) + if s.len() > 10 {
                "  ... and "@ + spec_dec(s.len() - 10) + " more\n"@
            } else {
                Seq::empty()
            }
        },
    }
}

/// One recent-history line: two spaces, the 7-character short identifier
/// (the whole identifier when shorter), a space, the summary (or "No
/// message"), and a newline.
pub open spec fn spec_commit_line(c: (String, Option<String>)) -> Seq<char> {
    let idlen = if c.0@.len() < 7 { c.0@.len() as int } else { 7int };
    "  "@ + c.0@.subrange(0, idlen) + " "@ + spec_opt_str(c.1, "No message"@) + "\n"@
}

/// The first `k` recent-history lines, concatenated.
pub open spec fn spec_commit_lines(s: Seq<(String, Option<String>)>, k: int) -> Seq<char>
    decreases k,
{
    if k <= 0 {
        Seq::empty()
    } else {
        spec_commit_lines(s, k - 1) + spec_commit_line(s[k - 1])
    }
}

/// One divergence line: two spaces, the delta letter, a space, the file's
/// path (empty when it is not representable), and a newline.
pub open spec fn spec_delta_line(d: (DeltaKind, Option<String>)) -> Seq<char> {
    "  "@ + spec_delta_code(d.0) + " "@ + spec_opt_str(d.1, Seq::empty()) + "\n"@
}

/// The first `k` divergence lines, concatenated.
pub open spec fn spec_delta_lines(s: Seq<(DeltaKind, Option<String>)>, k: int) -> Seq<char>
    decreases k,
{
    if k <= 0 {
        Seq::empty()
    } else {
        spec_delta_lines(s, k - 1) + spec_delta_line(s[k - 1])
    }
}

/// The divergence body for a computed diff: the stats line, at most 15 delta
/// lines, a remainder count when more exist, and a no-changes line when the
/// diff is empty.
pub open spec fn spec_diff_body(d: DiffSummary) -> Seq<char> {
    let n = d.deltas@.len();
    let shown = if n > 15 { 15int } else { n as int };
    "  "@ + spec_dec(d.files_changed as int) + " file(s) changed, +"@ + spec_dec(
        d.insertions as int,
    ) + " -"@ + spec_dec(d.deletions as int) + "\n"@ + spec_delta_lines(d.deltas@, shown) + (
    if n > 15 {
        "  ... and "@ + spec_dec(n - 15) + " more files\n"@
    } else {
        Seq::empty()
    }) + (if shown == 0 {
        "  \u{2728} No changes from origin/develop\n"@
    } else {
        Seq::empty()
    })
}

/// The divergence section body: nothing when the head cannot be resolved; an
/// explicit absence line when none of the baseline candidates exists;
/// nothing when the diff itself could not be computed; else the diff body.
pub open spec fn spec_diff_section(
    head_present: bool,
    baseline_found: bool,
    diff: Option<DiffSummary>,
) -> Seq<char> {
    if !head_present {
        Seq::empty()
    } else if !baseline_found {
        "  (origin/develop not found)\n"@
    } else {
        match diff {
            None => Seq::empty(),
            Some(d) => spec_diff_body(d),
        }
    }
}

/// The last-commit section: relative age (recomputed at preview time) and
/// summary line; omitted entirely when the head commit cannot be resolved.
pub open spec fn spec_last_commit_section(head: Option<(i64, Option<String>)>, now: int) -> Seq<
    char,
> {
    match head {
        None => Seq::empty(),
        Some(h) => "\u{1f550} Last commit: "@ + spec_age_label(now, h.0 as int) + ": "@
            + spec_opt_str(h.1, "No message"@) + "\n\n"@,
    }
}

/// The horizontal rule under each section heading.
pub open spec fn spec_rule() -> Seq<char> {
    "\u{2500}\u{2500}\u{2500}\u{2500}\u{2500}\u{2500}\u{2500}\u{2500}\u{2500}\u{2500}\u{2500}\u{2500}\u{2500}\u{2500}\u{2500}\u{2500}\u{2500}\u{2500}\u{2500}\u{2500}\u{2500}\u{2500}\u{2500}\u{2500}\u{2500}\u{2500}\u{2500}\u{2500}\u{2500}\u{2500}\u{2500}\u{2500}\u{2500}\u{2500}\u{2500}\u{2500}\u{2500}\u{2500}\u{2500}\u{2500}\u{2500}\u{2500}\u{2500}\u{2500}\u{2500}\u{2500}\u{2500}\u{2500}\u{2500}\u{2500}\u{2500}\n"@
}

/// Everything the preview of one worktree is rendered from, gathered by the
/// repository queries. Every field is best-effort.
pub struct PreviewData {
    pub head: Option<(i64, Option<String>)>,
    pub statuses: Option<Vec<(u32, Option<String>)>>,
    pub commits: Vec<(String, Option<String>)>,
    pub baseline_found: bool,
    pub diff: Option<DiffSummary>,
}

/// The statuses as a sequence, when available.
pub open spec fn spec_statuses_view(sts: Option<Vec<(u32, Option<String>)>>) -> Option<
    Seq<(u32, Option<String>)>,
> {
    match sts {
        Some(v) => Some(v@),
        None => None,
    }
}

/// The whole preview text: the header always; then, when the repository
/// could not be opened at all, a single error line; otherwise the four
/// sections in fixed order.
pub open spec fn spec_preview(
    branch: Seq<char>,
    path: Seq<char>,
    opened: bool,
    d: PreviewData,
    now: int,
) -> Seq<char> {
    let header = "\u{1f333} Branch: "@ + branch + "\n\n"@ + "\u{1f4c1} Path: "@ + path + "\n\n"@;
    if !opened {
        header + "Error: Cannot access worktree\n"@
    } else {
        header + spec_last_commit_section(d.head, now) + "\u{1f4dd} Changed files:\n"@
            + spec_rule() + spec_status_section(spec_statuses_view(d.statuses)) + "\n"@
            + "\u{1f4dc} Recent commits:\n"@ + spec_rule() + spec_commit_lines(
            d.commits@,
            d.commits@.len() as int,
        ) + "\n"@ + "\u{1f4ca} Diff vs origin/develop:\n"@ + spec_rule() + spec_diff_section(
            d.head is Some,
            d.baseline_found,
            d.diff,
        )
    }
}

/// The status letter for one status bitset (see `spec_status_code`).
pub fn status_code(bits: u32) -> (r: &'static str)
    ensures
        r@ == spec_status_code(bits),
{
    if bits & STATUS_NEW_MASK != 0 {
        "A"
    } else if bits & STATUS_MODIFIED_MASK != 0 {
        "M"
    } else if bits & STATUS_DELETED_MASK != 0 {
        "D"
    } else if bits & STATUS_RENAMED_MASK != 0 {
        "R"
    } else if bits & STATUS_CONFLICTED_MASK != 0 {
        "C"
    } else {
        "?"
    }
}

/// The delta letter for one diff delta (see `spec_delta_code`).
pub fn delta_code(k: &DeltaKind) -> (r: &'static str)
    ensures
        r@ == spec_delta_code(*k),
{
    match k {
        DeltaKind::Added => "A",
        DeltaKind::Deleted => "D",
        DeltaKind::Modified => "M",
        DeltaKind::Renamed => "R",
        DeltaKind::Copied => "C",
        DeltaKind::Other => "?",
    }
}

fn append_opt_str(out: &mut String, o: &Option<String>, fallback: &str)
    ensures
        final(out)@ == old(out)@ + spec_opt_str(*o, fallback@),
{
    match o {
        Some(s) => out.append(s.as_str()),
        None => out.append(fallback),
    }
}

/// Render the working-tree status section (see `spec_status_section`).
fn render_status_section(sts: &Option<Vec<(u32, Option<String>)>>) -> (r: String)
    ensures
        r@ == spec_status_section(spec_statuses_view(*sts)),
{
    let mut out = String::new();
    match sts {
        None => {
            proof {
                assert(out@ =~= spec_status_section(spec_statuses_view(*sts)));
            }
        },
        Some(v) => {
            if v.len() == 0 {
                out.append("  \u{2728} Working tree clean\n");
                proof {
                    assert(out@ =~= spec_status_section(spec_statuses_view(*sts)));
                }
            } else {
                let total = v.len();
                let shown = if total > 10 {
                    10
                } else {
                    total
                };
                let mut i: usize = 0;
                while i < shown
                    invariant
                        i <= shown <= v@.len(),
                        out@ == spec_status_lines(v@, i as int),
                    decreases shown - i,
                {
                    let ghost prev = out@;
                    out.append("  ");
                    out.append(status_code(v[i].0));
                    out.append(" ");
                    append_opt_str(&mut out, &v[i].1, "?");
                    out.append("\n");
                    proof {
                        assert(out@ =~= prev + spec_status_line(v@[i as int]));
                    }
                    i = i + 1;
                }
                if total > 10 {
                    out.append("  ... and ");
                    let more = u64_to_dec((total - 10) as u64);
                    out.append(more.as_str());
                    out.append(" more\n");
                    proof {
                        assert(out@ =~= spec_status_section(spec_statuses_view(*sts)));
                    }
                } else {
                    proof {
                        assert(out@ + Seq::<char>::empty() =~= out@);
                        assert(out@ =~= spec_status_section(spec_statuses_view(*sts)));
                    }
                }
            }
        },
    }
    out
}

/// Render the recent-history lines (see `spec_commit_lines`).
fn render_commit_lines(commits: &Vec<(String, Option<String>)>) -> (r: String)
    ensures
        r@ == spec_commit_lines(commits@, commits@.len() as int),
{
    let mut out = String::new();
    let n = commits.len();
    let mut i: usize = 0;
    while i < n
        invariant
            i <= n,
            n == commits@.len(),
            out@ == spec_commit_lines(commits@, i as int),
        decreases n - i,
    {
        let ghost prev = out@;
        out.append("  ");
        let idlen = commits[i].0.unicode_len();
        let k = if idlen < 7 {
            idlen
        } else {
            7
        };
        let short = commits[i].0.as_str().substring_char(0, k);
        out.append(short);
        out.append(" ");
        append_opt_str(&mut out, &commits[i].1, "No message");
        out.append("\n");
        proof {
            assert(out@ =~= prev + spec_commit_line(commits@[i as int]));
        }
        i = i + 1;
    }
    out
}

/// Render the divergence section (see `spec_diff_section`).
fn render_diff_section(head_present: bool, baseline_found: bool, diff: &Option<DiffSummary>) -> (r:
    String)
    ensures
        r@ == spec_diff_section(head_present, baseline_found, *diff),
{
    let mut out = String::new();
    if !head_present {
        return out;
    }
    if !baseline_found {
        out.append("  (origin/develop not found)\n");
        return out;
    }
    match diff {
        None => out,
        Some(d) => {
            out.append("  ");
            let files = u64_to_dec(d.files_changed as u64);
            out.append(files.as_str());
            out.append(" file(s) changed, +");
            let ins = u64_to_dec(d.insertions as u64);
            out.append(ins.as_str());
            out.append(" -");
            let del = u64_to_dec(d.deletions as u64);
            out.append(del.as_str());
            out.append("\n");
            let ghost stats_line = out@;
            let total = d.deltas.len();
            let shown = if total > 15 {
                15
            } else {
                total
            };
            let mut i: usize = 0;
            while i < shown
                invariant
                    i <= shown <= d.deltas@.len(),
                    out@ == stats_line + spec_delta_lines(d.deltas@, i as int),
                decreases shown - i,
            {
                let ghost prev = out@;
                out.append("  ");
                out.append(delta_code(&d.deltas[i].0));
                out.append(" ");
                append_opt_str(&mut out, &d.deltas[i].1, "");
                out.append("\n");
                proof {
                    reveal_strlit("");
                    assert(""@ =~= Seq::<char>::empty());
                    assert(out@ =~= prev + spec_delta_line(d.deltas@[i as int]));
                }
                i = i + 1;
            }
            if total > 15 {
                out.append("  ... and ");
                let more = u64_to_dec((total - 15) as u64);
                out.append(more.as_str());
                out.append(" more files\n");
            }
            if shown == 0 {
                out.append("  \u{2728} No changes from origin/develop\n");
            }
            proof {
                assert(out@ =~= spec_diff_section(head_present, baseline_found, *diff));
            }
            out
        },
    }
}

/// Render the whole preview from already-gathered data. Rendering is
/// deterministic and has no side effects: the result is a pure function of
/// the arguments.
pub fn render_preview(branch: &str, path: &str, opened: bool, d: &PreviewData, now: i64) -> (r:
    String)
    ensures
        r@ == spec_preview(branch@, path@, opened, *d, now as int),
{
    let mut out = String::new();
    out.append("\u{1f333} Branch: ");
    out.append(branch);
    out.append("\n\n");
    out.append("\u{1f4c1} Path: ");
    out.append(path);
    out.append("\n\n");
    if !opened {
        out.append("Error: Cannot access worktree\n");
        proof {
            assert(out@ =~= spec_preview(branch@, path@, opened, *d, now as int));
        }
        return out;
    }
    match &d.head {
        None => {
            proof {
                assert(out@ + spec_last_commit_section(d.head, now as int) =~= out@);
            }
        },
        Some(h) => {
            out.append("\u{1f550} Last commit: ");
            let rel = age_label(now, h.0);
            out.append(rel.as_str());
            out.append(": ");
            append_opt_str(&mut out, &h.1, "No message");
            out.append("\n\n");
        },
    }
    let ghost after_head = out@;
    out.append("\u{1f4dd} Changed files:\n");
    out.append(
        "\u{2500}\u{2500}\u{2500}\u{2500}\u{2500}\u{2500}\u{2500}\u{2500}\u{2500}\u{2500}\u{2500}\u{2500}\u{2500}\u{2500}\u{2500}\u{2500}\u{2500}\u{2500}\u{2500}\u{2500}\u{2500}\u{2500}\u{2500}\u{2500}\u{2500}\u{2500}\u{2500}\u{2500}\u{2500}\u{2500}\u{2500}\u{2500}\u{2500}\u{2500}\u{2500}\u{2500}\u{2500}\u{2500}\u{2500}\u{2500}\u{2500}\u{2500}\u{2500}\u{2500}\u{2500}\u{2500}\u{2500}\u{2500}\u{2500}\u{2500}\u{2500}\n",
    );
    let status = render_status_section(&d.statuses);
    out.append(status.as_str());
    out.append("\n");
    out.append("\u{1f4dc} Recent commits:\n");
    out.append(
        "\u{2500}\u{2500}\u{2500}\u{2500}\u{2500}\u{2500}\u{2500}\u{2500}\u{2500}\u{2500}\u{2500}\u{2500}\u{2500}\u{2500}\u{2500}\u{2500}\u{2500}\u{2500}\u{2500}\u{2500}\u{2500}\u{2500}\u{2500}\u{2500}\u{2500}\u{2500}\u{2500}\u{2500}\u{2500}\u{2500}\u{2500}\u{2500}\u{2500}\u{2500}\u{2500}\u{2500}\u{2500}\u{2500}\u{2500}\u{2500}\u{2500}\u{2500}\u{2500}\u{2500}\u{2500}\u{2500}\u{2500}\u{2500}\u{2500}\u{2500}\u{2500}\n",
    );
    let commits = render_commit_lines(&d.commits);
    out.append(commits.as_str());
    out.append("\n");
    out.append("\u{1f4ca} Diff vs origin/develop:\n");
    out.append(
        "\u{2500}\u{2500}\u{2500}\u{2500}\u{2500}\u{2500}\u{2500}\u{2500}\u{2500}\u{2500}\u{2500}\u{2500}\u{2500}\u{2500}\u{2500}\u{2500}\u{2500}\u{2500}\u{2500}\u{2500}\u{2500}\u{2500}\u{2500}\u{2500}\u{2500}\u{2500}\u{2500}\u{2500}\u{2500}\u{2500}\u{2500}\u{2500}\u{2500}\u{2500}\u{2500}\u{2500}\u{2500}\u{2500}\u{2500}\u{2500}\u{2500}\u{2500}\u{2500}\u{2500}\u{2500}\u{2500}\u{2500}\u{2500}\u{2500}\u{2500}\u{2500}\n",
    );
    let diffs = render_diff_section(d.head.is_some(), d.baseline_found, &d.diff);
    out.append(diffs.as_str());
    proof {
        assert(out@ =~= spec_preview(branch@, path@, opened, *d, now as int));
    }
    out
}

/// Law: the preview is idempotent with respect to its gathered data — two
/// renderings of identical inputs are identical text.
pub proof fn lemma_preview_idempotent(
    a: Seq<char>,
    b: Seq<char>,
    branch: Seq<char>,
    path: Seq<char>,
    opened: bool,
    d: PreviewData,
    now: int,
)
    requires
        a == spec_preview(branch, path, opened, d, now),
        b == spec_preview(branch, path, opened, d, now),
    ensures
        a == b,
{
}

/// Law: when the head resolves but no upstream baseline exists among the
/// candidates, the divergence section states the absence explicitly rather
/// than omitting the section or showing zero counts.
pub proof fn lemma_no_baseline_reported(diff: Option<DiffSummary>)
    ensures
        spec_diff_section(true, false, diff) == "  (origin/develop not found)\n"@,
{
}

/// Generate the preview for one worktree, synchronously: open its
/// repository, gather the per-section data best-effort, and render. The
/// result is always the rendering of the gathered data at the wall-clock
/// instant of the call.
pub fn generate_preview(branch: &str, path: &str) -> (r: String)
    ensures
        exists|opened: bool, d: PreviewData, now: int| r@ == #[trigger] spec_preview(
            branch@,
            path@,
            opened,
            d,
            now,
        ),
{
    let now = now_unix();
    match open_repo(path) {
        None => {
            let d = PreviewData {
                head: None,
                statuses: None,
                commits: Vec::new(),
                baseline_found: false,
                diff: None,
            };
            let r = render_preview(branch, path, false, &d, now);
            proof {
                assert(r@ == spec_preview(branch@, path@, false, d, now as int));
            }
            r
        },
        Some(repo) => {
            let head = head_commit_info(&repo);
            let statuses = status_bits(&repo);
            let commits = recent_commit_lines(&repo, 10);
            let baseline_found = has_reference(&repo, "refs/remotes/origin/develop")
                || has_reference(&repo, "refs/remotes/origin/main") || has_reference(
                &repo,
                "refs/remotes/origin/master",
            );
            let diff = if baseline_found {
                if has_reference(&repo, "refs/remotes/origin/develop") {
                    diff_from_baseline(&repo, "refs/remotes/origin/develop")
                } else if has_reference(&repo, "refs/remotes/origin/main") {
                    diff_from_baseline(&repo, "refs/remotes/origin/main")
                } else {
                    diff_from_baseline(&repo, "refs/remotes/origin/master")
                }
            } else {
                None
            };
            let d = PreviewData { head, statuses, commits, baseline_found, diff };
            let r = render_preview(branch, path, true, &d, now);
            proof {
                assert(r@ == spec_preview(branch@, path@, true, d, now as int));
            }
            r
        },
    }
}

} // verus!
