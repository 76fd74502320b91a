//! StreamingFeeder and SelectionIndex: order the built records by recency
//! (absent timestamps last), and map each rendered line back to its
//! structured identity. A record is registered in the index strictly before
//! it is handed to the selector, so a lookup of any streamed line succeeds.

use vstd::prelude::*;
use vstd::seq_lib::group_to_multiset_ensures;
use crate::item::WorktreeItem;
use crate::meta::WorktreeMetadata;
use crate::strutil::{dirname, spec_dirname, lemma_dirname_len, str_eq};

verus! {

/// One record ready to stream: the sort key (last-commit time) and the item.
pub struct StreamEntry {
    pub time: Option<i64>,
    pub item: WorktreeItem,
}

/// The recency key: an absent timestamp sorts below every possible
/// timestamp.
pub open spec fn spec_key(t: Option<i64>) -> int {
    match t {
        Some(v) => v as int,
        None => i64::MIN - 1,
    }
}

/// Whether the key of `a` is at least the key of `b`.
fn key_ge(a: &Option<i64>, b: &Option<i64>) -> (r: bool)
    ensures
        r == (spec_key(*a) >= spec_key(*b)),
{
    match (a, b) {
        (Some(x), Some(y)) => *x >= *y,
        (Some(_), None) => true,
        (None, Some(_)) => false,
        (None, None) => true,
    }
}

/// Build one streamable record from one metadata record: the directory name
/// is the final segment of the path, and the rendered line and spans are
/// those of `WorktreeItem::new`. The length bound keeps the rendering
/// arithmetic within `usize`.
pub fn build_entry(m: &WorktreeMetadata) -> (r: StreamEntry)
    requires
        m.branch@.len() + m.path@.len() + m.relative_age_label@.len() + 52 <= usize::MAX,
    ensures
        r.time == m.last_commit_unix_time,
        r.item.built_from(
            m.branch@,
            m.path@,
            spec_dirname(m.path@),
            m.relative_age_label@,
        ),
{
    let dname = dirname(m.path.as_str());
    proof {
        lemma_dirname_len(m.path@);
    }
    let item = WorktreeItem::new(
        m.branch.clone(),
        m.path.clone(),
        dname,
        m.relative_age_label.clone(),
    );
    StreamEntry { time: m.last_commit_unix_time, item }
}

/// Sort the records by recency, most recent first, absent timestamps last:
/// the result is a permutation of the input, ordered by descending key. All
/// sorting happens before any record is handed out.
pub fn sort_by_recency(input: Vec<StreamEntry>) -> (r: Vec<StreamEntry>)
    ensures
        r@.len() == input@.len(),
        forall|i: int, j: int| 0 <= i <= j < r@.len() ==> spec_key(#[trigger] r@[i].time)
            >= spec_key(#[trigger] r@[j].time),
        r@.to_multiset() == input@.to_multiset(),
{
    broadcast use group_to_multiset_ensures;

    let ghost orig = input@;
    let mut v = input;
    let mut out: Vec<StreamEntry> = Vec::new();
    proof {
        assert(out@.to_multiset().add(v@.to_multiset()) =~= orig.to_multiset());
    }
    while v.len() > 0
        invariant
            out@.len() + v@.len() == orig.len(),
            out@.to_multiset().add(v@.to_multiset()) == orig.to_multiset(),
            forall|i: int, j: int| 0 <= i <= j < out@.len() ==> spec_key(#[trigger] out@[i].time)
                >= spec_key(#[trigger] out@[j].time),
            forall|i: int, j: int| 0 <= i < out@.len() && 0 <= j < v@.len() ==> spec_key(
                #[trigger] out@[i].time,
            ) >= spec_key(#[trigger] v@[j].time),
        decreases v@.len(),
    {
        let mut best: usize = 0;
        let mut k: usize = 1;
        while k < v.len()
            invariant
                best < k <= v@.len(),
                v@.len() > 0,
                forall|j: int| 0 <= j < k ==> spec_key(v@[best as int].time) >= spec_key(
                    (#[trigger] v@[j]).time,
                ),
            decreases v@.len() - k,
        {
            if !key_ge(&v[best].time, &v[k].time) {
                best = k;
            }
            k = k + 1;
        }
        let ghost old_v = v@;
        let ghost old_out = out@;
        let x = v.remove(best);
        let ghost gx = x;
        out.push(x);
        proof {
            assert(old_v.contains(gx)) by {
                assert(old_v[best as int] == gx);
            }
            old_v.to_multiset_ensures();
            old_out.to_multiset_ensures();
            assert(old_v.remove(best as int).to_multiset() =~= old_v.to_multiset().remove(gx));
            assert(out@.to_multiset() =~= old_out.to_multiset().insert(gx));
            assert(out@.to_multiset().add(v@.to_multiset()) =~= orig.to_multiset());
            assert forall|i: int, j: int|
                0 <= i < out@.len() && 0 <= j < v@.len() implies spec_key(
                #[trigger] out@[i].time,
            ) >= spec_key(#[trigger] v@[j].time) by {
                if j < best {
                    assert(v@[j] == old_v[j]);
                } else {
                    assert(v@[j] == old_v[j + 1]);
                }
                if i < old_out.len() {
                    assert(out@[i] == old_out[i]);
                } else {
                    assert(out@[i] == gx);
                }
            }
        }
    }
    out
}

/// Law: for records with pairwise-distinct present timestamps, the sorted
/// order is strictly descending by timestamp, and every record without a
/// timestamp comes after every record with one.
pub proof fn lemma_stream_order(keys: Seq<Option<i64>>)
    requires
        forall|i: int, j: int| 0 <= i <= j < keys.len() ==> spec_key(#[trigger] keys[i])
            >= spec_key(#[trigger] keys[j]),
        forall|i: int, j: int| 0 <= i < j < keys.len() && #[trigger] keys[i] is Some
            && #[trigger] keys[j] is Some ==> keys[i] != keys[j],
    ensures
        forall|i: int, j: int| 0 <= i < j < keys.len() && #[trigger] keys[i] is Some
            && #[trigger] keys[j] is Some ==> keys[i].unwrap() > keys[j].unwrap(),
        forall|i: int, j: int| 0 <= i < j < keys.len() && #[trigger] keys[i] is None
            ==> #[trigger] keys[j] is None,
{
}

/// The text-keyed index: a mapping from rendered line to `(branch, path)`,
/// populated monotonically while records are streamed and read once after
/// the interactive session ends. When one rendered line was registered more
/// than once, the registration made last wins.
pub open spec fn spec_lookup(entries: Seq<(String, String, String)>, key: Seq<char>) -> Option<
    (Seq<char>, Seq<char>),
>
    decreases entries.len(),
{
    if entries.len() == 0 {
        None
    } else if entries.last().0@ == key {
        Some((entries.last().1@, entries.last().2@))
    } else {
        spec_lookup(entries.drop_last(), key)
    }
}

/// A mapping from rendered text to the structured identity of the record it
/// displays, used to recover `(branch, path)` from whatever plain text the
/// external selector returns.
pub struct SelectionIndex {
    entries: Vec<(String, String, String)>,
}

impl SelectionIndex {
    pub closed spec fn view(&self) -> Seq<(String, String, String)> {
        self.entries@
    }

    /// Create an empty index, before streaming starts.
    pub fn new() -> (r: Self)
        ensures
            r@ == Seq::<(String, String, String)>::empty(),
    {
        SelectionIndex { entries: Vec::new() }
    }

    /// Register one record under its rendered text. Called strictly before
    /// the record is sent to the selector.
    pub fn register(&mut self, item: &WorktreeItem)
        ensures
            final(self)@ == old(self)@.push((item.display_text, item.branch, item.path)),
    {
        self.entries.push(
            (item.display_text.clone(), item.branch.clone(), item.path.clone()),
        );
    }

    /// Recover the branch and path registered under `key`, preferring the
    /// latest registration.
    pub fn lookup(&self, key: &str) -> (r: Option<(String, String)>)
        ensures
            match r {
                Some(bp) => spec_lookup(self@, key@) == Some((bp.0@, bp.1@)),
                None => spec_lookup(self@, key@) is None,
            },
    {
        let n = self.entries.len();
        let mut i: usize = n;
        proof {
            assert(self@.subrange(0, i as int) =~= self@);
        }
        while i > 0
            invariant
                i <= n,
                n == self@.len(),
                spec_lookup(self@, key@) == spec_lookup(self@.subrange(0, i as int), key@),
            decreases i,
        {
            proof {
                assert(self@.subrange(0, i as int).last() == self@[i - 1]);
                assert(self@.subrange(0, i as int).drop_last() =~= self@.subrange(0, i - 1));
            }
            if str_eq(self.entries[i - 1].0.as_str(), key) {
                return Some((self.entries[i - 1].1.clone(), self.entries[i - 1].2.clone()));
            }
            i = i - 1;
        }
        proof {
            assert(self@.subrange(0, 0) =~= Seq::<(String, String, String)>::empty());
        }
        None
    }
}

/// Law: registering a record and then looking up its rendered text recovers
/// exactly that record's branch and path — the index entry for an item is
/// committed before the item is sent, so a selection of any streamed line
/// can always be resolved.
pub proof fn lemma_lookup_after_register(
    entries: Seq<(String, String, String)>,
    rendered: String,
    branch: String,
    path: String,
)
    ensures
        spec_lookup(entries.push((rendered, branch, path)), rendered@) == Some(
            (branch@, path@),
        ),
{
    let e = entries.push((rendered, branch, path));
    assert(e.last() == (rendered, branch, path));
}

} // verus!
