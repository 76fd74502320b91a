//! The searchable record for one worktree: a single rendered line with three
//! columns (relative age, branch, directory name) and the match spans that
//! let an anchored query target one column.

use vstd::prelude::*;
use crate::strutil::{spec_pad_right, spec_col_width, pad_right, lemma_spaces_len};

verus! {

/// Minimum width of the age column.
pub const AGE_COL_WIDTH: usize = 10;

/// Minimum width of the branch column.
pub const BRANCH_COL_WIDTH: usize = 40;

/// The rendered line: the age column padded to 10, a space, the branch
/// column padded to 40, a space, and the directory name unpadded.
pub open spec fn spec_rendered(age: Seq<char>, branch: Seq<char>, dirname: Seq<char>) -> Seq<
    char,
> {
    spec_pad_right(age, 10) + seq![' '] + spec_pad_right(branch, 40) + seq![' '] + dirname
}

/// The three match spans, each a (start, length) pair of character positions
/// in the rendered line: the padded age column, the branch (unpadded), and
/// the directory name.
pub open spec fn spec_spans(age: Seq<char>, branch: Seq<char>, dirname: Seq<char>) -> Seq<
    (usize, usize),
> {
    let c0 = spec_col_width(age, 10);
    let c1 = spec_col_width(branch, 40);
    seq![
        (0usize, c0 as usize),
        ((c0 + 1) as usize, branch.len() as usize),
        ((c0 + 1 + c1 + 1) as usize, dirname.len() as usize),
    ]
}

/// One selectable worktree record. `display_text` is built exactly once from
/// the other inputs and never mutated afterward, so the selector's displayed
/// string and the lookup key are always identical.
pub struct WorktreeItem {
    pub branch: String,
    pub path: String,
    pub display_text: String,
    pub matching_ranges: Vec<(usize, usize)>,
}

impl WorktreeItem {
    /// The record was built from exactly these branch, path, directory-name
    /// and age inputs.
    pub open spec fn built_from(
        self,
        branch: Seq<char>,
        path: Seq<char>,
        dirname: Seq<char>,
        age: Seq<char>,
    ) -> bool {
        &&& self.branch@ == branch
        &&& self.path@ == path
        &&& self.display_text@ == spec_rendered(age, branch, dirname)
        &&& self.matching_ranges@ == spec_spans(age, branch, dirname)
    }

    /// Build the record: render the line and compute the match spans.
    /// The length bound keeps the span arithmetic within `usize`.
    pub fn new(branch: String, path: String, dirname: String, updated_relative: String) -> (r:
        Self)
        requires
            updated_relative@.len() + branch@.len() + dirname@.len() + 52 <= usize::MAX,
        ensures
            r.built_from(branch@, path@, dirname@, updated_relative@),
    {
        let updated_col = pad_right(updated_relative.as_str(), AGE_COL_WIDTH);
        let branch_col = pad_right(branch.as_str(), BRANCH_COL_WIDTH);
        let ucol_len = updated_col.unicode_len();
        let bcol_len = branch_col.unicode_len();
        let blen = branch.unicode_len();
        let dlen = dirname.unicode_len();
        let mut display_text = updated_col;
        display_text.append(" ");
        display_text.append(branch_col.as_str());
        display_text.append(" ");
        display_text.append(dirname.as_str());
        proof {
            reveal_strlit(" ");
            assert(" "@ =~= seq![' ']);
            assert(display_text@ =~= spec_rendered(updated_relative@, branch@, dirname@));
        }
        let branch_start = ucol_len + 1;
        let dirname_start = branch_start + bcol_len + 1;
        let mut matching_ranges: Vec<(usize, usize)> = Vec::new();
        matching_ranges.push((0, ucol_len));
        matching_ranges.push((branch_start, blen));
        matching_ranges.push((dirname_start, dlen));
        proof {
            assert(matching_ranges@ =~= spec_spans(updated_relative@, branch@, dirname@));
        }
        WorktreeItem { branch, path, display_text, matching_ranges }
    }

    /// The text the selector searches and displays: the rendered line.
    pub fn text(&self) -> (r: String)
        ensures
            r@ == self.display_text@,
    {
        self.display_text.clone()
    }

    /// The spans of the rendered line eligible for anchored matching.
    pub fn get_matching_ranges(&self) -> (r: &Vec<(usize, usize)>)
        ensures
            r@ == self.matching_ranges@,
    {
        &self.matching_ranges
    }
}

/// Law: each match span delimits exactly its column of the rendered line —
/// the padded age column, the branch, and the directory name — and the line
/// is reproduced by concatenating the padded age column, a space, the padded
/// branch column (of which the branch span is the prefix), a space, and the
/// directory segment.
pub proof fn lemma_spans_recover(age: Seq<char>, branch: Seq<char>, dirname: Seq<char>)
    ensures
        ({
            let r = spec_rendered(age, branch, dirname);
            let c0 = spec_col_width(age, 10);
            let c1 = spec_col_width(branch, 40);
            &&& r.len() == c0 + 1 + c1 + 1 + dirname.len()
            &&& r.subrange(0, c0) == spec_pad_right(age, 10)
            &&& r.subrange(c0 + 1, c0 + 1 + branch.len()) == branch
            &&& r.subrange(c0 + 1 + c1 + 1, r.len() as int) == dirname
            &&& spec_pad_right(branch, 40).subrange(0, branch.len() as int) == branch
            &&& r == r.subrange(0, c0) + seq![' '] + spec_pad_right(branch, 40) + seq![' ']
                + r.subrange(c0 + 1 + c1 + 1, r.len() as int)
        }),
{
    let r = spec_rendered(age, branch, dirname);
    let c0 = spec_col_width(age, 10);
    let c1 = spec_col_width(branch, 40);
    lemma_spaces_len(10 - age.len());
    lemma_spaces_len(40 - branch.len());
    assert(spec_pad_right(age, 10).len() == c0);
    assert(spec_pad_right(branch, 40).len() == c1);
    assert(r.subrange(0, c0) =~= spec_pad_right(age, 10));
    assert(r.subrange(c0 + 1, c0 + 1 + branch.len()) =~= branch);
    assert(r.subrange(c0 + 1 + c1 + 1, r.len() as int) =~= dirname);
    assert(spec_pad_right(branch, 40).subrange(0, branch.len() as int) =~= branch);
    assert(r =~= r.subrange(0, c0) + seq![' '] + spec_pad_right(branch, 40) + seq![' ']
        + r.subrange(c0 + 1 + c1 + 1, r.len() as int));
}

/// Law: rendering is deterministic — two records built from identical
/// branch, path, directory-name and age inputs carry byte-identical rendered
/// text and identical match spans.
pub proof fn lemma_render_deterministic(
    a: WorktreeItem,
    b: WorktreeItem,
    branch: Seq<char>,
    path: Seq<char>,
    dirname: Seq<char>,
    age: Seq<char>,
)
    requires
        a.built_from(branch, path, dirname, age),
        b.built_from(branch, path, dirname, age),
    ensures
        a.display_text@ == b.display_text@,
        a.matching_ranges@ == b.matching_ranges@,
        a.branch@ == b.branch@,
        a.path@ == b.path@,
{
}

} // verus!
