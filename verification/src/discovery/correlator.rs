//! Co-occurrence of identifiers in time windows, the counts behind the
//! Jaccard similarity of two identifiers.
use vstd::prelude::*;
use crate::text::{str_eq, texts};
use chrono::DurationRound;

verus! {

/// Correlator that computes Jaccard similarity between identifiers based on co-occurrence.
pub struct Correlator {
    /// How many hours of the signal log are looked at.
    pub hours: u32,
}

/// The identifiers seen in one time window (the window's start, as text).
pub struct TimeWindow {
    pub key: String,
    pub ids: Vec<String>,
}

/// How often two identifiers were seen in the same window (`intersection`)
/// and in a window with either of them (`union`).
pub struct PairOverlap {
    pub id1: String,
    pub id2: String,
    pub intersection: usize,
    pub union: usize,
}

/// Whether the window holds the identifier.
pub open spec fn window_has(w: TimeWindow, id: Seq<char>) -> bool {
    texts(w.ids@).contains(id)
}

/// The number of windows that hold both identifiers.
pub open spec fn both_count(ws: Seq<TimeWindow>, a: Seq<char>, b: Seq<char>) -> nat
    decreases ws.len(),
{
    if ws.len() == 0 {
        0
    } else {
        both_count(ws.drop_last(), a, b) + if window_has(ws.last(), a) && window_has(ws.last(), b) {
            1nat
        } else {
            0nat
        }
    }
}

/// The number of windows that hold either identifier.
pub open spec fn either_count(ws: Seq<TimeWindow>, a: Seq<char>, b: Seq<char>) -> nat
    decreases ws.len(),
{
    if ws.len() == 0 {
        0
    } else {
        either_count(ws.drop_last(), a, b) + if window_has(ws.last(), a) || window_has(ws.last(), b) {
            1nat
        } else {
            0nat
        }
    }
}

/// Whether no text occurs twice.
pub open spec fn distinct_texts(s: Seq<Seq<char>>) -> bool {
    forall|i: int, j: int| 0 <= i < j < s.len() ==> s[i] != s[j]
}

/// Whether one of the first `n` rows has the key and the identifier.
pub open spec fn row_before(rows: Seq<(String, String)>, n: int, key: Seq<char>, id: Seq<char>) -> bool {
    exists|q: int| 0 <= q < n && #[trigger] rows[q].0@ == key && rows[q].1@ == id
}

/// Whether one of the windows has the key.
pub open spec fn key_listed(ws: Seq<TimeWindow>, key: Seq<char>) -> bool {
    exists|k: int| 0 <= k < ws.len() && #[trigger] ws[k].key@ == key
}

/// Whether the windows are a grouping of the rows (window key, identifier):
/// one window per key, keys distinct, each window holding exactly the
/// identifiers of its key's rows, each once.
pub open spec fn groups_rows(ws: Seq<TimeWindow>, rows: Seq<(String, String)>) -> bool {
    &&& forall|i: int, j: int| 0 <= i < j < ws.len() ==> ws[i].key@ != ws[j].key@
    &&& forall|k: int| 0 <= k < ws.len() ==> distinct_texts(texts(#[trigger] ws[k].ids@))
    &&& forall|k: int, id: Seq<char>| 0 <= k < ws.len() ==>
            (#[trigger] window_has(ws[k], id) <==> row_before(rows, rows.len() as int, ws[k].key@, id))
    &&& forall|r: int| 0 <= r < rows.len() ==> key_listed(ws, #[trigger] rows[r].0@)
}

/// Whether the identifier is among the window's identifiers.
pub(crate) fn holds_id(ids: &Vec<String>, id: &str) -> (r: bool)
    ensures
        r == texts(ids@).contains(id@),
{
    let mut i: usize = 0;
    while i < ids.len()
        invariant
            i <= ids@.len(),
            forall|j: int| 0 <= j < i ==> ids@[j]@ != id@,
        decreases ids@.len() - i,
    {
        if str_eq(ids[i].as_str(), id) {
            assert(texts(ids@)[i as int] == id@);
            return true;
        }
        i = i + 1;
    }
    proof {
        if texts(ids@).contains(id@) {
            let j = choose|j: int| 0 <= j < texts(ids@).len() && texts(ids@)[j] == id@;
            assert(ids@[j]@ == id@);
        }
    }
    false
}

/// Where the window with the key stands, if there is one.
fn window_index(keys: &Vec<String>, key: &str) -> (r: Option<usize>)
    ensures
        match r {
            Some(k) => k < keys@.len() && keys@[k as int]@ == key@,
            None => forall|k: int| 0 <= k < keys@.len() ==> keys@[k]@ != key@,
        },
{
    let mut i: usize = 0;
    while i < keys.len()
        invariant
            i <= keys@.len(),
            forall|j: int| 0 <= j < i ==> keys@[j]@ != key@,
        decreases keys@.len() - i,
    {
        if str_eq(keys[i].as_str(), key) {
            return Some(i);
        }
        i = i + 1;
    }
    None
}

/// Group rows of (window key, identifier) into time windows: one per key, in
/// the order in which the keys first come, each holding its identifiers once.
pub fn group_by_window(rows: &[(String, String)]) -> (r: Vec<TimeWindow>)
    ensures
        groups_rows(r@, rows@),
{
    let mut keys: Vec<String> = Vec::new();
    let mut groups: Vec<Vec<String>> = Vec::new();
    let mut i: usize = 0;
    while i < rows.len()
        invariant
            i <= rows@.len(),
            keys@.len() == groups@.len(),
            forall|a: int, b: int| 0 <= a < b < keys@.len() ==> keys@[a]@ != keys@[b]@,
            forall|k: int| 0 <= k < groups@.len() ==> distinct_texts(texts(#[trigger] groups@[k]@)),
            forall|k: int, id: Seq<char>| 0 <= k < groups@.len() ==>
                (#[trigger] texts(groups@[k]@).contains(id) <==> row_before(rows@, i as int, keys@[k]@, id)),
            forall|q: int| 0 <= q < i ==> #[trigger] texts(keys@).contains(rows@[q].0@),
        decreases rows@.len() - i,
    {
        let key: &String = &rows[i].0;
        let id: &String = &rows[i].1;
        match window_index(&keys, key.as_str()) {
            Some(k) => {
                let ghost old_groups = groups@;
                let present = holds_id(&groups[k], id.as_str());
                if !present {
                    let mut g = groups.remove(k);
                    g.push(id.clone());
                    groups.insert(k, g);
                    proof {
                        assert(groups@[k as int]@ =~= old_groups[k as int]@.push(rows@[i as int].1));
                        assert(texts(groups@[k as int]@) =~= texts(old_groups[k as int]@).push(id@));
                    }
                }
                proof {
                    assert(groups@.len() == old_groups.len());
                    assert(forall|k2: int| 0 <= k2 < groups@.len() && k2 != k ==> groups@[k2] == old_groups[k2]);
                    assert(keys@[k as int]@ == rows@[i as int].0@);
                    assert(texts(keys@)[k as int] == rows@[i as int].0@);
                    assert forall|k2: int, x: Seq<char>| 0 <= k2 < groups@.len() implies
                        (#[trigger] texts(groups@[k2]@).contains(x) <==> row_before(rows@, i + 1, keys@[k2]@, x)) by {
                        if k2 != k as int {
                            assert(groups@[k2] == old_groups[k2]);
                            if texts(groups@[k2]@).contains(x) {
                                assert(texts(old_groups[k2]@).contains(x));
                                let q = choose|q: int| 0 <= q < i && #[trigger] rows@[q].0@ == keys@[k2]@ && rows@[q].1@ == x;
                                assert(0 <= q < i + 1);
                            }
                            if row_before(rows@, i + 1, keys@[k2]@, x) {
                                let q = choose|q: int| 0 <= q < i + 1 && #[trigger] rows@[q].0@ == keys@[k2]@ && rows@[q].1@ == x;
                                if q == i as int {
                                    assert(keys@[k2]@ == keys@[k as int]@);
                                    assert(false);
                                }
                                assert(texts(old_groups[k2]@).contains(x));
                            }
                        } else {
                            if texts(groups@[k2]@).contains(x) {
                                if x == id@ {
                                    assert(rows@[i as int].0@ == keys@[k2]@ && rows@[i as int].1@ == x);
                                } else {
                                    if !present {
                                        let j = choose|j: int| 0 <= j < texts(groups@[k2]@).len() && texts(groups@[k2]@)[j] == x;
                                        assert(j < texts(old_groups[k2]@).len());
                                        assert(texts(old_groups[k2]@)[j] == x);
                                    }
                                    assert(texts(old_groups[k2]@).contains(x));
                                    let q = choose|q: int| 0 <= q < i && #[trigger] rows@[q].0@ == keys@[k2]@ && rows@[q].1@ == x;
                                    assert(0 <= q < i + 1);
                                }
                            }
                            if row_before(rows@, i + 1, keys@[k2]@, x) {
                                let q = choose|q: int| 0 <= q < i + 1 && #[trigger] rows@[q].0@ == keys@[k2]@ && rows@[q].1@ == x;
                                if q == i as int {
                                    if !present {
                                        assert(texts(groups@[k2]@).last() == x);
                                    }
                                } else {
                                    assert(texts(old_groups[k2]@).contains(x));
                                    if !present {
                                        let j = choose|j: int| 0 <= j < texts(old_groups[k2]@).len() && texts(old_groups[k2]@)[j] == x;
                                        assert(texts(groups@[k2]@)[j] == x);
                                    }
                                }
                            }
                        }
                    }
                    assert forall|k2: int| 0 <= k2 < groups@.len() implies distinct_texts(texts(#[trigger] groups@[k2]@)) by {
                        if k2 == k as int && !present {
                            assert(distinct_texts(texts(old_groups[k2]@)));
                            assert(!texts(old_groups[k2]@).contains(id@));
                        }
                    }
                }
            },
            None => {
                let ghost old_groups = groups@;
                let ghost old_keys = keys@;
                keys.push(key.clone());
                let mut g: Vec<String> = Vec::new();
                g.push(id.clone());
                groups.push(g);
                proof {
                    let n = old_keys.len() as int;
                    assert(texts(groups@[n]@) =~= seq![id@]);
                    assert forall|k2: int, x: Seq<char>| 0 <= k2 < groups@.len() implies
                        (#[trigger] texts(groups@[k2]@).contains(x) <==> row_before(rows@, i + 1, keys@[k2]@, x)) by {
                        if k2 == n {
                            if texts(groups@[k2]@).contains(x) {
                                assert(texts(groups@[k2]@)[0] == x);
                                assert(rows@[i as int].0@ == keys@[k2]@ && rows@[i as int].1@ == x);
                            }
                            if row_before(rows@, i + 1, keys@[k2]@, x) {
                                let q = choose|q: int| 0 <= q < i + 1 && #[trigger] rows@[q].0@ == keys@[k2]@ && rows@[q].1@ == x;
                                if q < i {
                                    assert(texts(old_keys).contains(rows@[q].0@));
                                    let k3 = choose|k3: int| 0 <= k3 < texts(old_keys).len() && texts(old_keys)[k3] == rows@[q].0@;
                                    assert(old_keys[k3]@ == key@);
                                    assert(false);
                                }
                                assert(texts(groups@[k2]@)[0] == x);
                            }
                        } else {
                            assert(groups@[k2] == old_groups[k2]);
                            assert(keys@[k2] == old_keys[k2]);
                            if row_before(rows@, i + 1, keys@[k2]@, x) {
                                let q = choose|q: int| 0 <= q < i + 1 && #[trigger] rows@[q].0@ == keys@[k2]@ && rows@[q].1@ == x;
                                if q == i {
                                    assert(old_keys[k2]@ == key@);
                                }
                                assert(0 <= q < i);
                            }
                        }
                    }
                    assert(texts(keys@) =~= texts(old_keys).push(key@));
                    assert forall|q: int| 0 <= q < i + 1 implies #[trigger] texts(keys@).contains(rows@[q].0@) by {
                        if q == i {
                            assert(texts(keys@)[n] == rows@[q].0@);
                        } else {
                            assert(texts(old_keys).contains(rows@[q].0@));
                            let k3 = choose|k3: int| 0 <= k3 < texts(old_keys).len() && texts(old_keys)[k3] == rows@[q].0@;
                            assert(texts(keys@)[k3] == rows@[q].0@);
                        }
                    }
                }
            },
        }
        i = i + 1;
    }
    let mut ws: Vec<TimeWindow> = Vec::new();
    let ghost all_keys = keys@;
    let ghost all_groups = groups@;
    while keys.len() > 0
        invariant
            keys@.len() == groups@.len(),
            keys@.len() + ws@.len() == all_keys.len(),
            all_keys.len() == all_groups.len(),
            forall|k: int| 0 <= k < keys@.len() ==> keys@[k] == all_keys[ws@.len() + k] && groups@[k] == all_groups[ws@.len() + k],
            forall|k: int| 0 <= k < ws@.len() ==> ws@[k].key == all_keys[k] && ws@[k].ids == all_groups[k],
        decreases keys@.len(),
    {
        let key = keys.remove(0);
        let ids = groups.remove(0);
        ws.push(TimeWindow { key, ids });
    }
    proof {
        assert forall|k: int, id: Seq<char>| 0 <= k < ws@.len() implies
            (#[trigger] window_has(ws@[k], id) <==> row_before(rows@, rows@.len() as int, ws@[k].key@, id)) by {
            assert(ws@[k].key == all_keys[k]);
            assert(ws@[k].ids == all_groups[k]);
        }
        assert forall|r: int| 0 <= r < rows@.len() implies key_listed(ws@, #[trigger] rows@[r].0@) by {
            assert(texts(all_keys).contains(rows@[r].0@));
            let k = choose|k: int| 0 <= k < texts(all_keys).len() && texts(all_keys)[k] == rows@[r].0@;
            assert(ws@[k].key@ == rows@[r].0@);
        }
        assert forall|i1: int, i2: int| 0 <= i1 < i2 < ws@.len() implies ws@[i1].key@ != ws@[i2].key@ by {
            assert(ws@[i1].key == all_keys[i1]);
            assert(ws@[i2].key == all_keys[i2]);
        }
        assert forall|k: int| 0 <= k < ws@.len() implies distinct_texts(texts(#[trigger] ws@[k].ids@)) by {
            assert(ws@[k].ids == all_groups[k]);
        }
    }
    ws
}

/// Whether one of the windows holds the identifier.
pub open spec fn seen_in(ws: Seq<TimeWindow>, id: Seq<char>) -> bool {
    exists|k: int| 0 <= k < ws.len() && #[trigger] window_has(ws[k], id)
}

/// The identifiers seen in any window, each once, in the order in which
/// they first come.
pub fn identifiers(windows: &[TimeWindow]) -> (r: Vec<String>)
    ensures
        distinct_texts(texts(r@)),
        forall|id: Seq<char>| #[trigger] texts(r@).contains(id) <==> seen_in(windows@, id),
{
    let mut out: Vec<String> = Vec::new();
    let mut k: usize = 0;
    while k < windows.len()
        invariant
            k <= windows@.len(),
            distinct_texts(texts(out@)),
            forall|id: Seq<char>| #[trigger] texts(out@).contains(id) <==> seen_in(windows@.take(k as int), id),
        decreases windows@.len() - k,
    {
        let ids = &windows[k].ids;
        let ghost before = out@;
        let mut j: usize = 0;
        while j < ids.len()
            invariant
                k < windows@.len(),
                ids == windows@[k as int].ids,
                j <= ids@.len(),
                distinct_texts(texts(out@)),
                forall|id: Seq<char>| #[trigger] texts(out@).contains(id) <==>
                    (texts(before).contains(id) || texts(ids@.take(j as int)).contains(id)),
            decreases ids@.len() - j,
        {
            let ghost prev = out@;
            if !holds_id(&out, ids[j].as_str()) {
                out.push(ids[j].clone());
                proof {
                    assert(texts(out@) =~= texts(prev).push(ids@[j as int]@));
                }
            }
            proof {
                assert(texts(ids@.take(j + 1)) =~= texts(ids@.take(j as int)).push(ids@[j as int]@));
                assert forall|id: Seq<char>| #[trigger] texts(out@).contains(id) <==>
                    (texts(before).contains(id) || texts(ids@.take(j + 1)).contains(id)) by {
                    let x = ids@[j as int]@;
                    assert(texts(ids@.take(j + 1))[j as int] == x);
                    if out@.len() > prev.len() {
                        assert(texts(out@)[prev.len() as int] == x);
                    } else {
                        assert(texts(out@) == texts(prev));
                    }
                    if texts(out@).contains(id) && id != x {
                        let t = choose|t: int| 0 <= t < texts(out@).len() && texts(out@)[t] == id;
                        assert(texts(prev)[t] == id);
                        assert(texts(prev).contains(id));
                    }
                    if texts(ids@.take(j + 1)).contains(id) && id != x {
                        let t = choose|t: int| 0 <= t < texts(ids@.take(j + 1)).len() && #[trigger] texts(ids@.take(j + 1))[t] == id;
                        assert(texts(ids@.take(j as int))[t] == id);
                        assert(texts(prev).contains(id));
                    }
                    if texts(ids@.take(j as int)).contains(id) {
                        let t = choose|t: int| 0 <= t < texts(ids@.take(j as int)).len() && #[trigger] texts(ids@.take(j as int))[t] == id;
                        assert(texts(ids@.take(j + 1))[t] == id);
                    }
                    if texts(prev).contains(id) {
                        let t = choose|t: int| 0 <= t < texts(prev).len() && texts(prev)[t] == id;
                        assert(texts(out@)[t] == id);
                    }
                }
            }
            j = j + 1;
        }
        proof {
            assert(ids@.take(ids@.len() as int) =~= ids@);
            assert(windows@.take(k + 1).drop_last() =~= windows@.take(k as int));
            assert forall|id: Seq<char>| #[trigger] texts(out@).contains(id) <==> seen_in(windows@.take(k + 1), id) by {
                if seen_in(windows@.take(k + 1), id) {
                    let w = choose|w: int| 0 <= w < k + 1 && #[trigger] window_has(windows@.take(k + 1)[w], id);
                    if w < k {
                        assert(window_has(windows@.take(k as int)[w], id));
                        assert(seen_in(windows@.take(k as int), id));
                    }
                }
                if texts(before).contains(id) {
                    let w = choose|w: int| 0 <= w < k && #[trigger] window_has(windows@.take(k as int)[w], id);
                    assert(window_has(windows@.take(k + 1)[w], id));
                }
                if texts(ids@).contains(id) {
                    assert(window_has(windows@.take(k + 1)[k as int], id));
                }
            }
        }
        k = k + 1;
    }
    proof {
        assert(windows@.take(windows@.len() as int) =~= windows@);
    }
    out
}

/// Whether the entry holds the overlap of `a` and `b` in the windows.
pub open spec fn entry_for(e: PairOverlap, ws: Seq<TimeWindow>, a: Seq<char>, b: Seq<char>) -> bool {
    &&& e.id1@ == a
    &&& e.id2@ == b
    &&& e.intersection == both_count(ws, a, b)
    &&& e.union == either_count(ws, a, b)
}

/// Whether some entry of the list is about the pair `a`, `b` (in either order).
pub open spec fn pair_listed(r: Seq<PairOverlap>, a: Seq<char>, b: Seq<char>) -> bool {
    exists|t: int| 0 <= t < r.len() && ((#[trigger] r[t].id1@ == a && r[t].id2@ == b) || (r[t].id1@ == b && r[t].id2@ == a))
}

/// Whether the entry is about two different identifiers that both were seen,
/// with their counts, and they were seen in at least one window.
pub open spec fn sound_entry(e: PairOverlap, ws: Seq<TimeWindow>) -> bool {
    &&& e.id1@ != e.id2@
    &&& seen_in(ws, e.id1@)
    &&& seen_in(ws, e.id2@)
    &&& entry_for(e, ws, e.id1@, e.id2@)
    &&& e.union > 0
}

/// An identifier that a window holds counts towards the union of each pair
/// it belongs to.
proof fn lemma_seen_counts(ws: Seq<TimeWindow>, a: Seq<char>, b: Seq<char>)
    requires
        seen_in(ws, a),
    ensures
        either_count(ws, a, b) > 0,
    decreases ws.len(),
{
    let k = choose|k: int| 0 <= k < ws.len() && #[trigger] window_has(ws[k], a);
    if k < ws.len() - 1 {
        assert(ws.drop_last()[k] == ws[k]);
        assert(window_has(ws.drop_last()[k], a));
        lemma_seen_counts(ws.drop_last(), a, b);
    }
}

/// The overlap of two identifiers does not depend on their order, and they
/// are never together in more windows than hold either of them: their
/// Jaccard similarity is symmetric and at most 1.
pub proof fn law_overlap_symmetric_and_bounded(ws: Seq<TimeWindow>, a: Seq<char>, b: Seq<char>)
    ensures
        both_count(ws, a, b) == both_count(ws, b, a),
        either_count(ws, a, b) == either_count(ws, b, a),
        both_count(ws, a, b) <= either_count(ws, a, b),
        either_count(ws, a, b) <= ws.len(),
    decreases ws.len(),
{
    if ws.len() > 0 {
        law_overlap_symmetric_and_bounded(ws.drop_last(), a, b);
    }
}

impl Correlator {
    /// Create a new correlator with a time window.
    pub fn new(hours: u32) -> (r: Self)
        ensures
            r.hours == hours,
    {
        Correlator { hours }
    }

    /// Compute intersection and union sizes for two identifiers across time windows.
    pub fn compute_jaccard(&self, time_windows: &[TimeWindow], id1: &str, id2: &str) -> (r: (usize, usize))
        ensures
            r.0 == both_count(time_windows@, id1@, id2@),
            r.1 == either_count(time_windows@, id1@, id2@),
    {
        let mut intersection: usize = 0;
        let mut union: usize = 0;
        let mut i: usize = 0;
        while i < time_windows.len()
            invariant
                i <= time_windows@.len(),
                intersection <= i,
                union <= i,
                intersection == both_count(time_windows@.take(i as int), id1@, id2@),
                union == either_count(time_windows@.take(i as int), id1@, id2@),
            decreases time_windows@.len() - i,
        {
            proof {
                assert(time_windows@.take(i + 1).drop_last() =~= time_windows@.take(i as int));
            }
            let window = &time_windows[i];
            let has_id1 = holds_id(&window.ids, id1);
            let has_id2 = holds_id(&window.ids, id2);
            if has_id1 && has_id2 {
                intersection = intersection + 1;
                union = union + 1;
            } else if has_id1 || has_id2 {
                union = union + 1;
            }
            i = i + 1;
        }
        assert(time_windows@.take(time_windows@.len() as int) =~= time_windows@);
        (intersection, union)
    }

    /// The overlap counts of every pair of different identifiers seen in the
    /// windows, each pair once, from which their Jaccard similarity
    /// (intersection over union) follows.
    pub fn pair_overlaps(&self, time_windows: &[TimeWindow]) -> (r: Vec<PairOverlap>)
        ensures
            forall|t: int| 0 <= t < r@.len() ==> sound_entry(#[trigger] r@[t], time_windows@),
            forall|a: Seq<char>, b: Seq<char>| seen_in(time_windows@, a) && seen_in(time_windows@, b) && a != b ==> #[trigger] pair_listed(r@, a, b),
    {
        let ids = identifiers(time_windows);
        let ghost ws = time_windows@;
        let ghost names = texts(ids@);
        let mut out: Vec<PairOverlap> = Vec::new();
        let mut i: usize = 0;
        while i < ids.len()
            invariant
                ws == time_windows@,
                names == texts(ids@),
                distinct_texts(names),
                forall|id: Seq<char>| #[trigger] names.contains(id) <==> seen_in(ws, id),
                i <= ids@.len(),
                forall|t: int| 0 <= t < out@.len() ==> sound_entry(#[trigger] out@[t], ws),
                forall|p: int, q: int| 0 <= p < q < ids@.len() && p < i && either_count(ws, names[p], names[q]) > 0 ==> #[trigger] pair_listed(out@, names[p], names[q]),
            decreases ids@.len() - i,
        {
            let mut j: usize = i + 1;
            while j < ids.len()
                invariant
                    ws == time_windows@,
                    names == texts(ids@),
                    distinct_texts(names),
                    forall|id: Seq<char>| #[trigger] names.contains(id) <==> seen_in(ws, id),
                    i < ids@.len(),
                    i + 1 <= j <= ids@.len(),
                    forall|t: int| 0 <= t < out@.len() ==> sound_entry(#[trigger] out@[t], ws),
                    forall|p: int, q: int| 0 <= p < q < ids@.len() && (p < i || (p == i && q < j)) && either_count(ws, names[p], names[q]) > 0 ==> #[trigger] pair_listed(out@, names[p], names[q]),
                decreases ids@.len() - j,
            {
                let (inter, uni) = self.compute_jaccard(time_windows, ids[i].as_str(), ids[j].as_str());
                let ghost prev = out@;
                if uni > 0 {
                    let e = PairOverlap { id1: ids[i].clone(), id2: ids[j].clone(), intersection: inter, union: uni };
                    out.push(e);
                    proof {
                        assert(names[i as int] != names[j as int]);
                        assert(names.contains(names[i as int]));
                        assert(names.contains(names[j as int]));
                        assert(sound_entry(out@[prev.len() as int], ws));
                        assert(out@[prev.len() as int].id1@ == names[i as int]);
                        assert(pair_listed(out@, names[i as int], names[j as int]));
                        assert forall|p: int, q: int| 0 <= p < q < ids@.len() && pair_listed(prev, names[p], names[q]) implies #[trigger] pair_listed(out@, names[p], names[q]) by {
                            let t = choose|t: int| 0 <= t < prev.len() && ((#[trigger] prev[t].id1@ == names[p] && prev[t].id2@ == names[q]) || (prev[t].id1@ == names[q] && prev[t].id2@ == names[p]));
                            assert(out@[t] == prev[t]);
                        }
                    }
                }
                j = j + 1;
            }
            i = i + 1;
        }
        proof {
            assert forall|a: Seq<char>, b: Seq<char>| seen_in(ws, a) && seen_in(ws, b) && a != b implies #[trigger] pair_listed(out@, a, b) by {
                assert(names.contains(a));
                assert(names.contains(b));
                let p = choose|p: int| 0 <= p < names.len() && names[p] == a;
                let q = choose|q: int| 0 <= q < names.len() && names[q] == b;
                lemma_seen_counts(ws, a, b);
                lemma_seen_counts(ws, b, a);
                if p < q {
                    assert(pair_listed(out@, names[p], names[q]));
                } else {
                    assert(either_count(ws, names[q], names[p]) > 0);
                    assert(pair_listed(out@, names[q], names[p]));
                    let t = choose|t: int| 0 <= t < out@.len() && ((#[trigger] out@[t].id1@ == names[q] && out@[t].id2@ == names[p]) || (out@[t].id1@ == names[p] && out@[t].id2@ == names[q]));
                    assert(out@[t].id1@ == a || out@[t].id1@ == b);
                }
            }
        }
        out
    }
}


/// The length of a co-occurrence window, in minutes.
pub const WINDOW_MINUTES: u32 = 5;

/// The key of the window of `minutes` minutes holding a signal's time stamp:
/// the RFC 3339 time stamp read (chrono `DateTime::parse_from_rfc3339`),
/// taken to UTC, rounded to the nearest multiple of the window
/// (`duration_round`) and written back in RFC 3339 (`to_rfc3339`); none
/// when the text is no RFC 3339 time stamp or the rounding fails.
pub uninterp spec fn window_key_of(ts: Seq<char>, minutes: u32) -> Option<Seq<char>>;

/// The window key of a time stamp (chrono parsing, rounding and writing).
/// Trusted: the result is named `window_key_of` of the text and the window
/// length; the calendar arithmetic is not stated.
#[verifier::external_body]
pub fn window_key(ts: &str, minutes: u32) -> (r: Option<String>)
    ensures
        match window_key_of(ts@, minutes) {
            Some(k) => r matches Some(s) && s@ == k,
            None => r is None,
        },
{
    let t = chrono::DateTime::parse_from_rfc3339(ts).ok()?.with_timezone(&chrono::Utc);
    let rounded = t.duration_round(chrono::Duration::minutes(minutes as i64)).ok()?;
    Some(rounded.to_rfc3339())
}

/// Whether `keyed` holds, row by row, the window key of each signal row's
/// time stamp and the row's identifier (signal rows are identifier, time
/// stamp).
pub open spec fn keyed_rows(keyed: Seq<(String, String)>, rows: Seq<(String, String)>) -> bool {
    &&& keyed.len() == rows.len()
    &&& forall|i: int|
        0 <= i < rows.len() ==> window_key_of(#[trigger] rows[i].1@, WINDOW_MINUTES) == Some(keyed[i].0@) && keyed[i].1@ == rows[i].0@
}

/// Whether the windows group the signal rows (identifier, time stamp) by the
/// window keys of their time stamps.
pub open spec fn windows_of(ws: Seq<TimeWindow>, rows: Seq<(String, String)>) -> bool {
    exists|keyed: Seq<(String, String)>| keyed_rows(keyed, rows) && #[trigger] groups_rows(ws, keyed)
}

/// Groups signal rows (identifier, time stamp) into windows of
/// `WINDOW_MINUTES` minutes:
/// the windows of the rows' keys, each with the identifiers seen in it; the
/// position of the first row whose time stamp gives no key otherwise.
pub fn windows_of_signals(rows: &[(String, String)]) -> (r: Result<Vec<TimeWindow>, usize>)
    ensures
        match r {
            Ok(ws) => windows_of(ws@, rows@),
            Err(i) => {
                &&& i < rows@.len()
                &&& window_key_of(rows@[i as int].1@, WINDOW_MINUTES) is None
                &&& forall|j: int| 0 <= j < i ==> window_key_of(#[trigger] rows@[j].1@, WINDOW_MINUTES) is Some
            },
        },
{
    let mut keyed: Vec<(String, String)> = Vec::new();
    let mut i: usize = 0;
    while i < rows.len()
        invariant
            i <= rows@.len(),
            keyed@.len() == i,
            forall|j: int|
                0 <= j < i ==> window_key_of(#[trigger] rows@[j].1@, WINDOW_MINUTES) == Some(keyed@[j].0@) && keyed@[j].1@
                    == rows@[j].0@,
        decreases rows@.len() - i,
    {
        match window_key(rows[i].1.as_str(), WINDOW_MINUTES) {
            Some(k) => {
                keyed.push((k, rows[i].0.clone()));
            },
            None => {
                return Err(i);
            },
        }
        i = i + 1;
    }
    let sl = keyed.as_slice();
    let ws = group_by_window(sl);
    assert(sl@ == keyed@);
    assert(keyed_rows(keyed@, rows@));
    assert(groups_rows(ws@, keyed@));
    assert(windows_of(ws@, rows@));
    Ok(ws)
}

} // verus!
