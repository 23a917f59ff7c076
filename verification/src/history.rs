//! The list of past recordings: newest first, at most a hundred.
//!
//! An item is generic in how it holds the length of its recording; nothing
//! here reads it.

use vstd::prelude::*;
use crate::ambient::{fresh_uuid, utc_now_rfc3339};
use crate::text::{chars_of, join, same_text};

verus! {

/// The most items that the history keeps.
pub const MAX_HISTORY_ITEMS: usize = 100;

/// One past recording.
#[derive(Debug, Clone, PartialEq)]
pub struct HistoryItem<D> {
    /// What tells this item from the others: a UUID.
    pub id: String,
    /// The full path of the recording.
    pub file_path: String,
    /// How long the recording lasts, in seconds.
    pub duration_seconds: D,
    /// The transcribed text.
    pub transcription: String,
    /// When the recording was made, as an ISO 8601 timestamp.
    pub created_at: String,
    /// The summary of the transcription, once there is one.
    pub summary: Option<String>,
}

/// Whether `a` comes before `b` in the order of strings: at the first place
/// where they differ `a` has the smaller character, or `a` ends there and
/// `b` does not.
pub open spec fn text_before(a: Seq<char>, b: Seq<char>) -> bool
    decreases a.len(),
{
    if b.len() == 0 {
        false
    } else if a.len() == 0 {
        true
    } else if a[0] != b[0] {
        (a[0] as u32) < (b[0] as u32)
    } else {
        text_before(a.drop_first(), b.drop_first())
    }
}

/// Whether no item stands before one that was created later.
pub open spec fn newest_first<D>(items: Seq<HistoryItem<D>>) -> bool {
    forall|i: int, j: int|
        0 <= i < j < items.len() ==> !text_before(
            (#[trigger] items[i]).created_at@,
            (#[trigger] items[j]).created_at@,
        )
}

/// Whether `after` holds the items of `before` in another order, the item at
/// `k` being the one that stood at `origin[k]`.
pub open spec fn is_rearrangement<D>(
    before: Seq<HistoryItem<D>>,
    after: Seq<HistoryItem<D>>,
    origin: Seq<int>,
) -> bool {
    &&& after.len() == before.len()
    &&& origin.len() == before.len()
    &&& forall|k: int|
        0 <= k < after.len() ==> 0 <= #[trigger] origin[k] < before.len() && after[k]
            == before[origin[k]]
    &&& forall|k: int, l: int|
        0 <= k < l < origin.len() ==> #[trigger] origin[k] != #[trigger] origin[l]
}

/// Whether items that were created at the same time stand in the order in
/// which they stood before.
pub open spec fn keeps_ties<D>(after: Seq<HistoryItem<D>>, origin: Seq<int>) -> bool {
    forall|k: int, l: int|
        0 <= k < l < after.len() && after[k].created_at@ == after[l].created_at@
            ==> #[trigger] origin[k] < #[trigger] origin[l]
}

/// Whether `after` is `before` sorted newest first, items of the same time
/// left in their order.
pub open spec fn is_sorted_history<D>(
    before: Seq<HistoryItem<D>>,
    after: Seq<HistoryItem<D>>,
) -> bool {
    &&& newest_first(after)
    &&& exists|origin: Seq<int>|
        #[trigger] is_rearrangement(before, after, origin) && keeps_ties(after, origin)
}

/// The history once it is cut down to the most items allowed.
pub open spec fn truncated<D>(items: Seq<HistoryItem<D>>) -> Seq<HistoryItem<D>> {
    if items.len() > MAX_HISTORY_ITEMS {
        items.take(MAX_HISTORY_ITEMS as int)
    } else {
        items
    }
}

/// The history without the items that carry `id`.
pub open spec fn without_id<D>(items: Seq<HistoryItem<D>>, id: Seq<char>) -> Seq<HistoryItem<D>> {
    items.filter(|item: HistoryItem<D>| item.id@ != id)
}

/// The index of the first item that carries `id`, or the length of the
/// history if none does.
pub open spec fn index_of_id<D>(items: Seq<HistoryItem<D>>, id: Seq<char>) -> int
    decreases items.len(),
{
    if items.len() == 0 {
        0
    } else if items[0].id@ == id {
        0
    } else {
        1 + index_of_id(items.drop_first(), id)
    }
}

/// The order of strings passes on: what comes before something that comes
/// before a third comes before the third.
pub proof fn lemma_text_before_transitive(a: Seq<char>, b: Seq<char>, c: Seq<char>)
    requires
        text_before(a, b),
        text_before(b, c),
    ensures
        text_before(a, c),
    decreases a.len(),
{
    if a.len() > 0 && b.len() > 0 && c.len() > 0 && a[0] == b[0] && b[0] == c[0] {
        lemma_text_before_transitive(a.drop_first(), b.drop_first(), c.drop_first());
    }
}

/// Nothing comes before itself in the order of strings.
pub proof fn lemma_text_before_irreflexive(a: Seq<char>)
    ensures
        !text_before(a, a),
    decreases a.len(),
{
    if a.len() > 0 {
        lemma_text_before_irreflexive(a.drop_first());
    }
}

/// Tests whether `a` comes before `b` in the order of strings.
pub fn comes_before(a: &str, b: &str) -> (r: bool)
    ensures
        r == text_before(a@, b@),
{
    let x = chars_of(a);
    let y = chars_of(b);
    let mut i: usize = 0;
    proof {
        assert(x@.skip(0) =~= x@);
        assert(y@.skip(0) =~= y@);
    }
    loop
        invariant
            x@ == a@,
            y@ == b@,
            i <= x.len(),
            i <= y.len(),
            text_before(a@, b@) == text_before(x@.skip(i as int), y@.skip(i as int)),
        decreases x.len() - i,
    {
        if i == y.len() {
            return false;
        }
        if i == x.len() {
            return true;
        }
        proof {
            assert(x@.skip(i as int)[0] == x@[i as int]);
            assert(y@.skip(i as int)[0] == y@[i as int]);
            assert(x@.skip(i as int).drop_first() =~= x@.skip(i + 1));
            assert(y@.skip(i as int).drop_first() =~= y@.skip(i + 1));
        }
        if x[i] != y[i] {
            return (x[i] as u32) < (y[i] as u32);
        }
        i = i + 1;
    }
}

impl<D> HistoryItem<D> {
    /// Makes the item for a recording that was just made: a fresh UUID for
    /// its identifier, the present moment for its time of creation, and no
    /// summary yet.
    pub fn new(file_path: String, duration_seconds: D, transcription: String) -> (r: Self)
        ensures
            r.id@.len() == 36,
            r.file_path == file_path,
            r.duration_seconds == duration_seconds,
            r.transcription == transcription,
            r.summary is None,
    {
        let id = fresh_uuid();
        let created_at = utc_now_rfc3339();
        HistoryItem::with_identity(id, created_at, file_path, duration_seconds, transcription)
    }

    /// Makes the item for a recording from its identifier and its time of
    /// creation: no summary yet.
    pub fn with_identity(
        id: String,
        created_at: String,
        file_path: String,
        duration_seconds: D,
        transcription: String,
    ) -> (r: Self)
        ensures
            r.id == id,
            r.created_at == created_at,
            r.file_path == file_path,
            r.duration_seconds == duration_seconds,
            r.transcription == transcription,
            r.summary is None,
    {
        HistoryItem { id, file_path, duration_seconds, transcription, created_at, summary: None }
    }
}

/// Sorts the history newest first by the time of creation. Items of the same
/// time keep their order.
pub fn sort_history_descending<D>(items: &mut Vec<HistoryItem<D>>)
    ensures
        is_sorted_history(old(items)@, final(items)@),
{
    let ghost before = items@;
    let ghost mut origin: Seq<int> = Seq::new(items@.len(), |k: int| k);
    let mut i: usize = 0;
    while i < items.len()
        invariant
            i <= items.len(),
            is_rearrangement(before, items@, origin),
            keeps_ties(items@.take(i as int), origin.take(i as int)),
            newest_first(items@.take(i as int)),
            forall|k: int| 0 <= k < i ==> #[trigger] origin[k] < i,
            forall|k: int| i <= k < origin.len() ==> #[trigger] origin[k] == k,
        decreases items.len() - i,
    {
        let ghost at_start = items@;
        let ghost origin_at_start = origin;
        let item = items.remove(i);
        let mut p: usize = 0;
        let mut found: bool = false;
        while p < i && !found
            invariant
                p <= i <= items.len(),
                items@ == at_start.remove(i as int),
                item == at_start[i as int],
                i < at_start.len(),
                forall|k: int|
                    0 <= k < p ==> !text_before(
                        (#[trigger] at_start[k]).created_at@,
                        item.created_at@,
                    ),
                found ==> p < i && text_before(at_start[p as int].created_at@, item.created_at@),
            decreases i - p + (if found { 0int } else { 1int }),
        {
            if comes_before(items[p].created_at.as_str(), item.created_at.as_str()) {
                found = true;
            } else {
                p = p + 1;
            }
        }
        proof {
            assert(p < i ==> text_before(at_start[p as int].created_at@, item.created_at@));
        }
        items.insert(p, item);
        proof {
            let now = items@;
            let moved = origin_at_start.remove(i as int).insert(p as int, i as int);
            origin = moved;
            assert(now == at_start.remove(i as int).insert(p as int, at_start[i as int]));
            assert forall|k: int| 0 <= k < now.len() implies 0 <= #[trigger] moved[k] < before.len()
                && now[k] == before[moved[k]] by {
                if k < p {
                    assert(moved[k] == origin_at_start[k]);
                    assert(now[k] == at_start[k]);
                } else if k == p {
                    assert(moved[k] == i);
                    assert(origin_at_start[i as int] == i);
                } else if k <= i {
                    assert(moved[k] == origin_at_start[k - 1]);
                    assert(now[k] == at_start[k - 1]);
                } else {
                    assert(moved[k] == origin_at_start[k]);
                    assert(now[k] == at_start[k]);
                }
            }
            assert forall|k: int| 0 <= k <= i implies #[trigger] moved[k] <= i by {
                if k < p {
                    assert(moved[k] == origin_at_start[k]);
                } else if k > p {
                    assert(moved[k] == origin_at_start[k - 1]);
                }
            }
            assert forall|k: int| i < k < moved.len() implies #[trigger] moved[k] == k by {
                assert(moved[k] == origin_at_start[k]);
            }
            assert forall|k: int, l: int| 0 <= k < l < moved.len() implies #[trigger] moved[k]
                != #[trigger] moved[l] by {
                let from = |m: int|
                    if m < p {
                        m
                    } else if m == p {
                        i as int
                    } else if m <= i {
                        m - 1
                    } else {
                        m
                    };
                assert(moved[k] == origin_at_start[from(k)]);
                assert(moved[l] == origin_at_start[from(l)]);
                assert(from(k) != from(l));
                if from(k) < from(l) {
                    assert(origin_at_start[from(k)] != origin_at_start[from(l)]);
                } else {
                    assert(origin_at_start[from(l)] != origin_at_start[from(k)]);
                }
            }
            let sorted = now.take(i + 1);
            let sorted_before = at_start.take(i as int);
            let origin_before = origin_at_start.take(i as int);
            assert forall|k: int, l: int| 0 <= k < l < sorted.len() implies !text_before(
                (#[trigger] sorted[k]).created_at@,
                (#[trigger] sorted[l]).created_at@,
            ) by {
                let a = if k < p {
                    k
                } else {
                    k - 1
                };
                let b = if l < p {
                    l
                } else {
                    l - 1
                };
                if k == p {
                    // what follows the place of the new item is older than it
                    assert(sorted[l] == sorted_before[l - 1]);
                    assert(sorted[k] == at_start[i as int]);
                    assert(text_before(at_start[p as int].created_at@, sorted[k].created_at@));
                    if text_before(sorted[k].created_at@, sorted[l].created_at@) {
                        lemma_text_before_transitive(
                            at_start[p as int].created_at@,
                            sorted[k].created_at@,
                            sorted[l].created_at@,
                        );
                        assert(sorted_before[p as int] == at_start[p as int]);
                        if p < l - 1 {
                            assert(!text_before(
                                sorted_before[p as int].created_at@,
                                sorted_before[l - 1].created_at@,
                            ));
                        } else {
                            lemma_text_before_irreflexive(at_start[p as int].created_at@);
                        }
                    }
                } else if l == p {
                    assert(sorted[k] == at_start[k]);
                    assert(sorted[l] == at_start[i as int]);
                } else {
                    assert(sorted[k] == sorted_before[a]);
                    assert(sorted[l] == sorted_before[b]);
                }
            }
            assert forall|k: int, l: int|
                0 <= k < l < sorted.len() && sorted[k].created_at@
                    == sorted[l].created_at@ implies #[trigger] moved.take(i + 1)[k]
                < #[trigger] moved.take(i + 1)[l] by {
                let a = if k < p {
                    k
                } else {
                    k - 1
                };
                let b = if l < p {
                    l
                } else {
                    l - 1
                };
                if k == p {
                    assert(sorted[l] == sorted_before[l - 1]);
                    assert(sorted[k] == at_start[i as int]);
                    assert(text_before(at_start[p as int].created_at@, sorted[k].created_at@));
                    assert(sorted_before[p as int] == at_start[p as int]);
                    if p < l - 1 {
                        assert(!text_before(
                            sorted_before[p as int].created_at@,
                            sorted_before[l - 1].created_at@,
                        ));
                    } else {
                        lemma_text_before_irreflexive(at_start[p as int].created_at@);
                    }
                    assert(false);
                } else if l == p {
                    assert(moved[l] == i);
                    assert(moved[k] == origin_at_start[k]);
                } else {
                    assert(sorted[k] == sorted_before[a]);
                    assert(sorted[l] == sorted_before[b]);
                    assert(moved[k] == origin_before[a]);
                    assert(moved[l] == origin_before[b]);
                }
            }
            assert forall|k: int| 0 <= k < i + 1 implies #[trigger] moved[k] < i + 1 by {
                assert(moved[k] <= i);
            }
        }
        i = i + 1;
    }
    proof {
        assert(items@.take(items@.len() as int) =~= items@);
        assert(origin.take(origin.len() as int) =~= origin);
        assert(is_rearrangement(before, items@, origin) && keeps_ties(items@, origin));
    }
}

/// Cuts the history down to the most items allowed, dropping the last ones.
pub fn truncate_history<D>(items: &mut Vec<HistoryItem<D>>)
    ensures
        final(items)@ == truncated(old(items)@),
{
    if items.len() > MAX_HISTORY_ITEMS {
        items.truncate(MAX_HISTORY_ITEMS);
    }
}

/// Puts a new item at the head of the history and cuts the history down to
/// the most items allowed.
pub fn add_to_history<D>(history: &mut Vec<HistoryItem<D>>, item: HistoryItem<D>)
    ensures
        final(history)@ == truncated(old(history)@.insert(0, item)),
{
    history.insert(0, item);
    truncate_history(history);
}

/// Finds the first item that carries `id`.
pub fn find_by_id<D>(history: &Vec<HistoryItem<D>>, id: &str) -> (r: Option<usize>)
    ensures
        match r {
            Some(i) => i == index_of_id(history@, id@) && i < history@.len(),
            None => index_of_id(history@, id@) == history@.len(),
        },
{
    let mut i: usize = 0;
    proof {
        assert(history@.skip(0) =~= history@);
    }
    while i < history.len()
        invariant
            i <= history.len(),
            index_of_id(history@, id@) == i + index_of_id(history@.skip(i as int), id@),
        decreases history.len() - i,
    {
        proof {
            assert(history@.skip(i as int)[0] == history@[i as int]);
            assert(history@.skip(i as int).drop_first() =~= history@.skip(i + 1));
        }
        if same_text(history[i].id.as_str(), id) {
            return Some(i);
        }
        i = i + 1;
    }
    None
}

/// Takes every item that carries `id` out of the history.
pub fn remove_from_history<D>(history: &mut Vec<HistoryItem<D>>, id: &str)
    ensures
        final(history)@ == without_id(old(history)@, id@),
{
    let ghost before = history@;
    let ghost keep = |item: HistoryItem<D>| item.id@ != id@;
    let ghost mut seen: int = 0;
    let mut i: usize = 0;
    proof {
        assert(before.take(0).filter(keep) =~= Seq::<HistoryItem<D>>::empty());
        assert(before.skip(0) =~= before);
    }
    while i < history.len()
        invariant
            0 <= seen <= before.len(),
            i <= history.len(),
            keep == |item: HistoryItem<D>| item.id@ != id@,
            i == before.take(seen).filter(keep).len(),
            history@ == before.take(seen).filter(keep) + before.skip(seen),
        decreases before.len() - seen,
    {
        proof {
            assert(history@[i as int] == before.skip(seen)[0]);
            assert(before.take(seen + 1).drop_last() =~= before.take(seen));
            assert(before.take(seen + 1).last() == before[seen]);
            assert(before.skip(seen).drop_first() =~= before.skip(seen + 1));
            reveal(Seq::filter);
        }
        if same_text(history[i].id.as_str(), id) {
            let ghost at_start = history@;
            history.remove(i);
            proof {
                assert(before.take(seen + 1).filter(keep) == before.take(seen).filter(keep));
                assert(at_start.remove(i as int) =~= before.take(seen).filter(keep) + before.skip(
                    seen + 1,
                ));
                seen = seen + 1;
            }
        } else {
            proof {
                assert(before.take(seen + 1).filter(keep) == before.take(seen).filter(keep).push(
                    before[seen],
                ));
                assert(history@ =~= before.take(seen + 1).filter(keep) + before.skip(seen + 1));
                seen = seen + 1;
            }
            i = i + 1;
        }
    }
    proof {
        assert(before.skip(seen) =~= Seq::<HistoryItem<D>>::empty());
        assert(before.take(seen) =~= before);
        assert(history@ =~= before.filter(keep));
    }
}

/// What setting the summary of the item `id` ends with: nothing to report,
/// or that no item carries the id.
pub open spec fn summary_fault<D>(items: Seq<HistoryItem<D>>, id: Seq<char>) -> Option<Seq<char>> {
    if index_of_id(items, id) < items.len() {
        None
    } else {
        Some("History item not found: "@ + id)
    }
}

/// Gives the first item that carries `id` the summary `summary`. The rest of
/// the history stays as it is; without such an item all of it does.
pub fn set_summary<D>(history: &mut Vec<HistoryItem<D>>, id: &str, summary: String) -> (r: Result<
    (),
    String,
>)
    ensures
        crate::settings::fault_of(r) == summary_fault(old(history)@, id@),
        final(history)@.len() == old(history)@.len(),
        forall|k: int|
            0 <= k < old(history)@.len() && k != index_of_id(old(history)@, id@)
                ==> final(history)@[k] == old(history)@[k],
        index_of_id(old(history)@, id@) < old(history)@.len() ==> {
            let at = index_of_id(old(history)@, id@);
            &&& final(history)@[at].summary == Some(summary)
            &&& final(history)@[at].id == old(history)@[at].id
            &&& final(history)@[at].file_path == old(history)@[at].file_path
            &&& final(history)@[at].duration_seconds == old(history)@[at].duration_seconds
            &&& final(history)@[at].transcription == old(history)@[at].transcription
            &&& final(history)@[at].created_at == old(history)@[at].created_at
        },
{
    match find_by_id(history, id) {
        Some(i) => {
            let item = history.remove(i);
            let updated = HistoryItem {
                id: item.id,
                file_path: item.file_path,
                duration_seconds: item.duration_seconds,
                transcription: item.transcription,
                created_at: item.created_at,
                summary: Some(summary),
            };
            history.insert(i, updated);
            Ok(())
        },
        None => Err(join("History item not found: ", id)),
    }
}

} // verus!
