//! Up Next display rows and the narrowest announcement of how they moved.
//!
//! A reset rebuilds every delegate and cancels row animations, so a change
//! that is really one row appearing or leaving is announced as exactly that;
//! anything wider (a cursor move rewriting two rows, a bulk enqueue) resets.

use vstd::prelude::*;

verus! {

/// One Up Next row: display strings plus duration, now-playing flag, library
/// id (`-1` when the entry has none), and whether its file is gone.
#[derive(Clone, Debug)]
pub struct QueueRow {
    pub title: String,
    pub artist: String,
    pub album: String,
    pub duration_ms: i32,
    pub is_current: bool,
    pub track_id: i32,
    pub missing: bool,
}

/// A row as plain values.
pub struct RowView {
    pub title: Seq<char>,
    pub artist: Seq<char>,
    pub album: Seq<char>,
    pub duration_ms: i32,
    pub is_current: bool,
    pub track_id: i32,
    pub missing: bool,
}

impl View for QueueRow {
    type V = RowView;

    open spec fn view(&self) -> RowView {
        RowView {
            title: self.title@,
            artist: self.artist@,
            album: self.album@,
            duration_ms: self.duration_ms,
            is_current: self.is_current,
            track_id: self.track_id,
            missing: self.missing,
        }
    }
}

/// The rows as plain values.
pub open spec fn row_views(rows: Seq<QueueRow>) -> Seq<RowView> {
    rows.map_values(|r: QueueRow| r@)
}

/// How the row list moved since the view last heard about it.
#[derive(Clone, Copy, Debug, PartialEq, Eq, Structural)]
pub enum RowChange {
    /// Nothing to announce.
    Unchanged,
    /// Exactly this row appeared.
    Inserted(usize),
    /// Exactly this row went away.
    Removed(usize),
    /// Anything wider: the view rebuilds.
    Reset,
}

/// Field-by-field row equality.
pub fn same_row(a: &QueueRow, b: &QueueRow) -> (r: bool)
    ensures
        r == (a@ == b@),
{
    a.title == b.title && a.artist == b.artist && a.album == b.album && a.duration_ms
        == b.duration_ms && a.is_current == b.is_current && a.track_id == b.track_id && a.missing
        == b.missing
}

/// `at` is where `shorter` and `longer` first differ (or the end of
/// `shorter` when it is a prefix of `longer`).
pub open spec fn is_first_mismatch(shorter: Seq<RowView>, longer: Seq<RowView>, at: int) -> bool {
    &&& 0 <= at <= shorter.len()
    &&& at < longer.len()
    &&& forall|i: int| 0 <= i < at ==> shorter[i] == longer[i]
    &&& at < shorter.len() ==> shorter[at] != longer[at]
}

/// `longer` is `shorter` with one row put in at `at`.
pub open spec fn one_inserted_at(shorter: Seq<RowView>, longer: Seq<RowView>, at: int) -> bool {
    0 <= at < longer.len() && longer == shorter.insert(at, longer[at])
}

/// `longer` is `shorter` with one row put in somewhere.
pub open spec fn one_inserted(shorter: Seq<RowView>, longer: Seq<RowView>) -> bool {
    exists|at: int| one_inserted_at(shorter, longer, at)
}

proof fn lemma_mismatch_is_insertion(shorter: Seq<RowView>, longer: Seq<RowView>, at: int, k: int)
    requires
        longer.len() == shorter.len() + 1,
        is_first_mismatch(shorter, longer, at),
        one_inserted_at(shorter, longer, k),
    ensures
        one_inserted_at(shorter, longer, at),
{
    let x = longer[k];
    assert(longer == shorter.insert(k, x));
    if at < k {
        assert(shorter[at] == longer[at]);
    }
    assert(at >= k);
    assert forall|i: int| at <= i < shorter.len() implies longer[i + 1] == shorter[i] by {
        assert(shorter.insert(k, x)[i + 1] == shorter[i]);
    }
    assert(longer =~= shorter.insert(at, longer[at]));
}

/// Index of the one row `longer` has that `shorter` does not, when the rest
/// match in order; `None` when more than one row differs.
pub fn single_extra(shorter: &[QueueRow], longer: &[QueueRow]) -> (r: Option<usize>)
    requires
        longer@.len() == shorter@.len() + 1,
    ensures
        r is Some <==> one_inserted(row_views(shorter@), row_views(longer@)),
        r matches Some(at) ==> is_first_mismatch(row_views(shorter@), row_views(longer@), at as int)
            && one_inserted_at(row_views(shorter@), row_views(longer@), at as int),
{
    let ghost s = row_views(shorter@);
    let ghost l = row_views(longer@);
    let mut at: usize = 0;
    while at < shorter.len() && same_row(&shorter[at], &longer[at])
        invariant
            at <= shorter@.len(),
            longer@.len() == shorter@.len() + 1,
            s == row_views(shorter@),
            l == row_views(longer@),
            forall|i: int| 0 <= i < at ==> s[i] == l[i],
        decreases shorter@.len() - at,
    {
        at = at + 1;
    }
    assert(is_first_mismatch(s, l, at as int));
    let mut i = at;
    while i < shorter.len()
        invariant
            at <= i <= shorter@.len(),
            longer@.len() == shorter@.len() + 1,
            s == row_views(shorter@),
            l == row_views(longer@),
            forall|j: int| at <= j < i ==> s[j] == l[j + 1],
            is_first_mismatch(s, l, at as int),
        decreases shorter@.len() - i,
    {
        if !same_row(&shorter[i], &longer[i + 1]) {
            proof {
                if one_inserted(s, l) {
                    let k = choose|k: int| one_inserted_at(s, l, k);
                    lemma_mismatch_is_insertion(s, l, at as int, k);
                    assert(l[i + 1] == s.insert(at as int, l[at as int])[i + 1]);
                }
            }
            return None;
        }
        i = i + 1;
    }
    assert(l =~= s.insert(at as int, l[at as int]));
    assert(one_inserted_at(s, l, at as int));
    Some(at)
}

/// Whether two row lists hold the same rows in the same order.
fn same_rows(a: &[QueueRow], b: &[QueueRow]) -> (r: bool)
    ensures
        r == (row_views(a@) == row_views(b@)),
{
    if a.len() != b.len() {
        assert(row_views(a@).len() != row_views(b@).len());
        return false;
    }
    let mut i: usize = 0;
    while i < a.len()
        invariant
            i <= a@.len(),
            a@.len() == b@.len(),
            forall|j: int| 0 <= j < i ==> row_views(a@)[j] == row_views(b@)[j],
        decreases a@.len() - i,
    {
        if !same_row(&a[i], &b[i]) {
            assert(row_views(a@)[i as int] != row_views(b@)[i as int]);
            return false;
        }
        i = i + 1;
    }
    assert(row_views(a@) =~= row_views(b@));
    true
}

/// What `row_change` announces for rows `published` (what the view saw) and
/// `now`.
pub open spec fn row_change_spec(published: Seq<RowView>, now: Seq<RowView>) -> RowChange {
    if published == now {
        RowChange::Unchanged
    } else if now.len() == published.len() + 1 && one_inserted(published, now) {
        RowChange::Inserted(
            (choose|at: int| is_first_mismatch(published, now, at)) as usize,
        )
    } else if published.len() == now.len() + 1 && one_inserted(now, published) {
        RowChange::Removed(
            (choose|at: int| is_first_mismatch(now, published, at)) as usize,
        )
    } else {
        RowChange::Reset
    }
}

/// Classify `now` against what the view was last told (`published`).
pub fn row_change(published: &[QueueRow], now: &[QueueRow]) -> (c: RowChange)
    ensures
        c == row_change_spec(row_views(published@), row_views(now@)),
        c == RowChange::Unchanged <==> row_views(published@) == row_views(now@),
        c matches RowChange::Inserted(at) ==> one_inserted_at(
            row_views(published@),
            row_views(now@),
            at as int,
        ),
        c matches RowChange::Removed(at) ==> one_inserted_at(
            row_views(now@),
            row_views(published@),
            at as int,
        ),
{
    let ghost p = row_views(published@);
    let ghost n = row_views(now@);
    if same_rows(published, now) {
        return RowChange::Unchanged;
    }
    if now.len() > published.len() && now.len() - published.len() == 1 {
        if let Some(at) = single_extra(published, now) {
            proof {
                lemma_first_mismatch_unique(p, n, at as int);
            }
            return RowChange::Inserted(at);
        }
    }
    if published.len() > now.len() && published.len() - now.len() == 1 {
        if let Some(at) = single_extra(now, published) {
            proof {
                lemma_first_mismatch_unique(n, p, at as int);
                assert(!(n.len() == p.len() + 1));
            }
            return RowChange::Removed(at);
        }
    }
    RowChange::Reset
}

proof fn lemma_first_mismatch_unique(s: Seq<RowView>, l: Seq<RowView>, at: int)
    requires
        is_first_mismatch(s, l, at),
    ensures
        (choose|k: int| is_first_mismatch(s, l, k)) == at,
{
    let k = choose|k: int| is_first_mismatch(s, l, k);
    assert(is_first_mismatch(s, l, k));
    if k < at {
        assert(s[k] == l[k]);
    }
    if at < k {
        assert(s[at] == l[at]);
    }
}

/// Putting one row `r` into the published rows at `at` is announced as
/// exactly that insertion, as long as `r` is not a copy of the row it lands
/// in front of (then the first difference is further down).
pub proof fn lemma_single_insert_is_announced(published: Seq<RowView>, at: int, r: RowView)
    requires
        0 <= at <= published.len(),
        at == published.len() || published[at] != r,
    ensures
        row_change_spec(published, published.insert(at, r)) == RowChange::Inserted(at as usize),
{
    let now = published.insert(at, r);
    assert(now.len() == published.len() + 1);
    assert(published != now);
    assert(now =~= published.insert(at, now[at]));
    assert(one_inserted_at(published, now, at));
    assert(is_first_mismatch(published, now, at)) by {
        assert forall|i: int| 0 <= i < at implies published[i] == now[i] by {}
    }
    lemma_first_mismatch_unique(published, now, at);
}

/// Taking the row at `at` out of the published rows is announced as
/// exactly that removal, as long as the row after it is not a copy of it.
pub proof fn lemma_single_removal_is_announced(published: Seq<RowView>, at: int)
    requires
        0 <= at < published.len(),
        at + 1 == published.len() || published[at] != published[at + 1],
    ensures
        row_change_spec(published, published.remove(at)) == RowChange::Removed(at as usize),
{
    let now = published.remove(at);
    assert(published.len() == now.len() + 1);
    assert(published != now) by {
        assert(published.len() != now.len());
    }
    assert(published =~= now.insert(at, published[at]));
    assert(one_inserted_at(now, published, at));
    assert(is_first_mismatch(now, published, at)) by {
        assert forall|i: int| 0 <= i < at implies now[i] == published[i] by {}
        if at < now.len() {
            assert(now[at] == published[at + 1]);
        }
    }
    assert(!(now.len() == published.len() + 1));
    lemma_first_mismatch_unique(now, published, at);
}

} // verus!
