//! String and path helpers: fixed-width padding, decimal rendering of
//! counters, suffix tests, and '/'-separated path segment logic.

use vstd::prelude::*;

verus! {

/// A run of `n` spaces (empty when `n <= 0`).
pub open spec fn spec_spaces(n: int) -> Seq<char>
    decreases n,
{
    if n <= 0 {
        Seq::empty()
    } else {
        spec_spaces(n - 1).push(' ')
    }
}

/// `s` left-aligned in a column of minimum width `w`: `s` itself followed by
/// enough spaces to reach `w` characters (none when `s` is already that wide).
pub open spec fn spec_pad_right(s: Seq<char>, w: int) -> Seq<char> {
    s + spec_spaces(w - s.len())
}

/// Width of the padded column: the larger of `w` and the length of `s`.
pub open spec fn spec_col_width(s: Seq<char>, w: int) -> int {
    if s.len() >= w {
        s.len() as int
    } else {
        w
    }
}

pub proof fn lemma_spaces_len(n: int)
    ensures
        spec_spaces(n).len() == if n <= 0 { 0int } else { n },
    decreases n,
{
    if n > 0 {
        lemma_spaces_len(n - 1);
    }
}

/// Pad `s` on the right with spaces to a minimum width of `width` characters.
pub fn pad_right(s: &str, width: usize) -> (r: String)
    ensures
        r@ == spec_pad_right(s@, width as int),
        r@.len() == spec_col_width(s@, width as int),
{
    let n = s.unicode_len();
    let mut r = s.to_owned();
    let mut i: usize = n;
    proof {
        assert(s@ + spec_spaces(i - n) =~= s@);
    }
    while i < width
        invariant
            n <= i,
            n < width ==> i <= width,
            n >= width ==> i == n,
            n == s@.len(),
            r@ == s@ + spec_spaces(i - n),
            r@.len() == i,
        decreases width - i,
    {
        proof {
            reveal_strlit(" ");
            lemma_spaces_len(i - n);
            assert(spec_spaces(i + 1 - n) == spec_spaces(i - n).push(' '));
            assert(s@ + spec_spaces(i - n) + " "@ =~= s@ + spec_spaces(i + 1 - n));
        }
        r.append(" ");
        i = i + 1;
    }
    proof {
        lemma_spaces_len(width - n);
        assert(r@ =~= spec_pad_right(s@, width as int));
    }
    r
}

/// The decimal digit character for `d` (only meaningful for `0 <= d <= 9`).
pub open spec fn spec_digit_char(d: int) -> char {
    if d == 0 { '0' }
    else if d == 1 { '1' }
    else if d == 2 { '2' }
    else if d == 3 { '3' }
    else if d == 4 { '4' }
    else if d == 5 { '5' }
    else if d == 6 { '6' }
    else if d == 7 { '7' }
    else if d == 8 { '8' }
    else { '9' }
}

/// The usual decimal rendering of `n`, most significant digit first, with no
/// leading zeros (a single '0' for zero).
pub open spec fn spec_dec(n: int) -> Seq<char>
    decreases n,
{
    if n < 10 {
        seq![spec_digit_char(n)]
    } else {
        spec_dec(n / 10).push(spec_digit_char(n % 10))
    }
}

fn digit_str(d: u64) -> (r: &'static str)
    requires
        d < 10,
    ensures
        r@ =~= seq![spec_digit_char(d as int)],
{
    proof {
        reveal_strlit("0");
        reveal_strlit("1");
        reveal_strlit("2");
        reveal_strlit("3");
        reveal_strlit("4");
        reveal_strlit("5");
        reveal_strlit("6");
        reveal_strlit("7");
        reveal_strlit("8");
        reveal_strlit("9");
    }
    if d == 0 { "0" }
    else if d == 1 { "1" }
    else if d == 2 { "2" }
    else if d == 3 { "3" }
    else if d == 4 { "4" }
    else if d == 5 { "5" }
    else if d == 6 { "6" }
    else if d == 7 { "7" }
    else if d == 8 { "8" }
    else { "9" }
}

/// Render `n` in decimal.
pub fn u64_to_dec(n: u64) -> (r: String)
    ensures
        r@ == spec_dec(n as int),
    decreases n,
{
    if n < 10 {
        String::from_str(digit_str(n))
    } else {
        let head = u64_to_dec(n / 10);
        let r = head.concat(digit_str(n % 10));
        proof {
            assert(r@ =~= spec_dec(n as int));
        }
        r
    }
}

/// Whether the character sequences of two string slices are equal.
pub fn str_eq(a: &str, b: &str) -> (r: bool)
    ensures
        r == (a@ == b@),
{
    let sa = a.to_owned();
    let sb = b.to_owned();
    sa == sb
}

/// Whether `s` ends with the characters of `suffix`.
pub fn str_ends_with(s: &str, suffix: &str) -> (r: bool)
    ensures
        r == (s@.len() >= suffix@.len() && s@.subrange(
            s@.len() - suffix@.len(),
            s@.len() as int,
        ) == suffix@),
{
    let n = s.unicode_len();
    let m = suffix.unicode_len();
    if m > n {
        false
    } else {
        let tail = s.substring_char(n - m, n);
        str_eq(tail, suffix)
    }
}

/// Whether `s`, read as a '/'-separated path, ends in the segments of
/// `suffix`: either `s` equals `suffix`, or `s` ends with '/' followed by
/// `suffix`.
pub open spec fn spec_ends_with_component(s: Seq<char>, suffix: Seq<char>) -> bool {
    s == suffix || (s.len() > suffix.len() && s.subrange(
        s.len() - suffix.len() - 1,
        s.len() as int,
    ) == seq!['/'] + suffix)
}

/// Component-wise suffix test: `slash_suffix` must be `suffix` preceded by
/// exactly one '/'.
pub fn ends_with_component(s: &str, suffix: &str, slash_suffix: &str) -> (r: bool)
    requires
        slash_suffix@ == seq!['/'] + suffix@,
    ensures
        r == spec_ends_with_component(s@, suffix@),
{
    if str_eq(s, suffix) {
        true
    } else {
        str_ends_with(s, slash_suffix)
    }
}

/// `s` with every trailing '/' removed.
pub open spec fn spec_trim_trailing_slashes(s: Seq<char>) -> Seq<char>
    decreases s.len(),
{
    if s.len() == 0 {
        s
    } else if s.last() == '/' {
        spec_trim_trailing_slashes(s.drop_last())
    } else {
        s
    }
}

/// The maximal suffix of `s` that contains no '/' (all of `s` when `s` has
/// no '/').
pub open spec fn spec_after_last_slash(s: Seq<char>) -> Seq<char>
    decreases s.len(),
{
    if s.len() == 0 {
        s
    } else if s.last() == '/' {
        Seq::empty()
    } else {
        spec_after_last_slash(s.drop_last()).push(s.last())
    }
}

pub proof fn lemma_after_last_slash_len(s: Seq<char>)
    ensures
        spec_after_last_slash(s).len() <= s.len(),
        spec_after_last_slash(s).len() < s.len() ==> s[s.len() - spec_after_last_slash(s).len()
            - 1] == '/',
        spec_after_last_slash(s) == s.subrange(s.len() - spec_after_last_slash(s).len(), s.len() as int),
    decreases s.len(),
{
    if s.len() > 0 && s.last() != '/' {
        lemma_after_last_slash_len(s.drop_last());
        let t = s.drop_last();
        let a = spec_after_last_slash(t);
        assert(spec_after_last_slash(s) =~= s.subrange(
            s.len() - spec_after_last_slash(s).len(),
            s.len() as int,
        ));
    }
}

/// Index of the last '/' of a trimmed path, as an offset from the length.
pub open spec fn spec_has_slash(s: Seq<char>) -> bool {
    spec_after_last_slash(s).len() < s.len()
}

/// The final path segment of `path`: trailing '/' characters are ignored,
/// and the part after the last remaining '/' is the segment. When nothing is
/// left (an empty path or one made only of '/'), the whole original path is
/// the fallback.
pub open spec fn spec_dirname(path: Seq<char>) -> Seq<char> {
    let t = spec_trim_trailing_slashes(path);
    if t.len() == 0 {
        path
    } else {
        spec_after_last_slash(t)
    }
}

pub proof fn lemma_trim_len(s: Seq<char>)
    ensures
        spec_trim_trailing_slashes(s).len() <= s.len(),
    decreases s.len(),
{
    if s.len() > 0 && s.last() == '/' {
        lemma_trim_len(s.drop_last());
    }
}

/// The final segment is never longer than the path it was taken from.
pub proof fn lemma_dirname_len(s: Seq<char>)
    ensures
        spec_dirname(s).len() <= s.len(),
{
    let t = spec_trim_trailing_slashes(s);
    lemma_trim_len(s);
    if t.len() != 0 {
        lemma_after_last_slash_len(t);
    }
}

/// The parent directory of `path`, with the semantics of dropping the final
/// '/'-separated segment: trailing '/' characters are ignored; `None` when no
/// '/' remains; the root "/" when the last '/' is the first character.
pub open spec fn spec_parent_dir(path: Seq<char>) -> Option<Seq<char>> {
    let t = spec_trim_trailing_slashes(path);
    if !spec_has_slash(t) {
        None
    } else {
        let i = t.len() - spec_after_last_slash(t).len() - 1;
        if i == 0 {
            Some(t.subrange(0, 1))
        } else {
            Some(t.subrange(0, i))
        }
    }
}

/// Number of characters left once trailing '/' characters are dropped.
fn trimmed_len(s: &str) -> (r: usize)
    ensures
        r <= s@.len(),
        r == spec_trim_trailing_slashes(s@).len(),
        s@.subrange(0, r as int) == spec_trim_trailing_slashes(s@),
{
    let n = s.unicode_len();
    let mut i: usize = n;
    proof {
        assert(s@.subrange(0, i as int) =~= s@);
    }
    while i > 0 && s.get_char(i - 1) == '/'
        invariant
            i <= n,
            n == s@.len(),
            spec_trim_trailing_slashes(s@) == spec_trim_trailing_slashes(s@.subrange(0, i as int)),
        decreases i,
    {
        proof {
            let t = s@.subrange(0, i as int);
            assert(t.last() == '/');
            assert(t.drop_last() =~= s@.subrange(0, i - 1));
        }
        i = i - 1;
    }
    proof {
        let t = s@.subrange(0, i as int);
        if i > 0 {
            assert(t.last() != '/');
        }
        assert(spec_trim_trailing_slashes(t) == t);
        assert(s@.subrange(0, i as int) =~= spec_trim_trailing_slashes(s@));
    }
    i
}

/// Scan for the last '/' strictly before position `end`; returns the number
/// of non-'/' characters from `end` going left.
fn tail_run_len(s: &str, end: usize) -> (r: usize)
    requires
        end <= s@.len(),
    ensures
        r <= end,
        r == spec_after_last_slash(s@.subrange(0, end as int)).len(),
{
    let mut i: usize = end;
    while i > 0 && s.get_char(i - 1) != '/'
        invariant
            i <= end <= s@.len(),
            spec_after_last_slash(s@.subrange(0, end as int)).len() == spec_after_last_slash(
                s@.subrange(0, i as int),
            ).len() + (end - i),
        decreases i,
    {
        proof {
            let t = s@.subrange(0, i as int);
            assert(t.last() != '/');
            assert(t.drop_last() =~= s@.subrange(0, i - 1));
        }
        i = i - 1;
    }
    proof {
        let t = s@.subrange(0, i as int);
        if i > 0 {
            assert(t.last() == '/');
        }
        assert(spec_after_last_slash(t).len() == 0);
    }
    end - i
}

/// The final path segment of `path` (see `spec_dirname`).
pub fn dirname(path: &str) -> (r: String)
    ensures
        r@ == spec_dirname(path@),
{
    let t = trimmed_len(path);
    if t == 0 {
        path.to_owned()
    } else {
        let run = tail_run_len(path, t);
        proof {
            let tr = spec_trim_trailing_slashes(path@);
            lemma_after_last_slash_len(tr);
            assert(run <= t);
        }
        let r = path.substring_char(t - run, t);
        proof {
            let tr = spec_trim_trailing_slashes(path@);
            lemma_after_last_slash_len(tr);
            assert(tr.subrange(tr.len() - spec_after_last_slash(tr).len(), tr.len() as int)
                =~= path@.subrange(t - run, t as int));
        }
        r.to_owned()
    }
}

/// The parent directory of `path` (see `spec_parent_dir`).
pub fn parent_dir(path: &str) -> (r: Option<String>)
    ensures
        match r {
            Some(p) => spec_parent_dir(path@) == Some(p@),
            None => spec_parent_dir(path@) is None,
        },
{
    let t = trimmed_len(path);
    let run = tail_run_len(path, t);
    proof {
        let tr = spec_trim_trailing_slashes(path@);
        lemma_after_last_slash_len(tr);
        assert(run <= t);
    }
    if run >= t {
        None
    } else {
        let i = t - run - 1;
        proof {
            let tr = spec_trim_trailing_slashes(path@);
            assert(tr.subrange(0, 1) =~= path@.subrange(0, 1));
            assert(tr.subrange(0, i as int) =~= path@.subrange(0, i as int));
        }
        if i == 0 {
            Some(path.substring_char(0, 1).to_owned())
        } else {
            Some(path.substring_char(0, i).to_owned())
        }
    }
}

} // verus!
