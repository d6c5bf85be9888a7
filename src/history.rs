use vstd::prelude::*;
use std::collections::VecDeque;
use crate::records::SensorRecord;

verus! {

/// Each record is at least as new as every record after it.
pub open spec fn newest_first<T>(s: Seq<SensorRecord<T>>) -> bool {
    forall|i: int, j: int|
        0 <= i < j < s.len() ==> #[trigger] s[i].time_recorded >= #[trigger] s[j].time_recorded
}

/// No two records share an id.
pub open spec fn distinct_ids<T>(s: Seq<SensorRecord<T>>) -> bool {
    forall|i: int, j: int| 0 <= i < j < s.len() ==> #[trigger] s[i].id@ != #[trigger] s[j].id@
}

/// Some record of `s` has the id `id`.
pub open spec fn contains_id<T>(s: Seq<SensorRecord<T>>, id: Seq<char>) -> bool {
    exists|i: int| 0 <= i < s.len() && #[trigger] s[i].id@ == id
}

/// A well-formed history: newest first, ids distinct, at most `max_history` records.
pub open spec fn history_wf<T>(s: Seq<SensorRecord<T>>, max_history: nat) -> bool {
    &&& newest_first(s)
    &&& distinct_ids(s)
    &&& s.len() <= max_history
}

/// The first position whose record is strictly older than `t`, or the length
/// of `s` if there is none.
pub open spec fn insert_index<T>(s: Seq<SensorRecord<T>>, t: i64) -> int
    decreases s.len(),
{
    if s.len() == 0 {
        0
    } else if t > s[0].time_recorded {
        0
    } else {
        1 + insert_index(s.drop_first(), t)
    }
}

/// `s` with `rec` placed before the first strictly older record.
pub open spec fn sorted_in<T>(s: Seq<SensorRecord<T>>, rec: SensorRecord<T>) -> Seq<
    SensorRecord<T>,
> {
    s.insert(insert_index(s, rec.time_recorded), rec)
}

/// Each record of `recs` sorted into `s`, in the order of `recs`.
pub open spec fn sorted_in_all<T>(s: Seq<SensorRecord<T>>, recs: Seq<SensorRecord<T>>) -> Seq<
    SensorRecord<T>,
>
    decreases recs.len(),
{
    if recs.len() == 0 {
        s
    } else {
        sorted_in(sorted_in_all(s, recs.drop_last()), recs.last())
    }
}

/// The history after `rec` arrives: a record whose id is present already is
/// ignored; otherwise it is sorted in and the history is cut back to
/// `max_history` records, dropping the oldest.
pub open spec fn kept_in<T>(s: Seq<SensorRecord<T>>, rec: SensorRecord<T>, max_history: nat) -> Seq<
    SensorRecord<T>,
> {
    if contains_id(s, rec.id@) {
        s
    } else if sorted_in(s, rec).len() > max_history {
        sorted_in(s, rec).take(max_history as int)
    } else {
        sorted_in(s, rec)
    }
}

/// Each record of `recs` kept in `s`, in the order of `recs`.
pub open spec fn kept_in_all<T>(
    s: Seq<SensorRecord<T>>,
    recs: Seq<SensorRecord<T>>,
    max_history: nat,
) -> Seq<SensorRecord<T>>
    decreases recs.len(),
{
    if recs.len() == 0 {
        s
    } else {
        kept_in(kept_in_all(s, recs.drop_last(), max_history), recs.last(), max_history)
    }
}

/// `insert_index` is the position that a front-to-back scan stops at.
pub proof fn lemma_insert_index_at<T>(s: Seq<SensorRecord<T>>, t: i64, i: int)
    requires
        0 <= i <= s.len(),
        forall|k: int| 0 <= k < i ==> !(t > #[trigger] s[k].time_recorded),
        i < s.len() ==> t > s[i].time_recorded,
    ensures
        insert_index(s, t) == i,
    decreases i,
{
    if i > 0 {
        assert(!(t > s[0].time_recorded));
        let r = s.drop_first();
        assert forall|k: int| 0 <= k < i - 1 implies !(t > #[trigger] r[k].time_recorded) by {
            assert(r[k] == s[k + 1]);
        }
        if i - 1 < r.len() {
            assert(r[i - 1] == s[i]);
        }
        lemma_insert_index_at(r, t, i - 1);
    }
}

/// What `insert_index` satisfies.
pub proof fn lemma_insert_index_props<T>(s: Seq<SensorRecord<T>>, t: i64)
    ensures
        0 <= insert_index(s, t) <= s.len(),
        forall|k: int| 0 <= k < insert_index(s, t) ==> #[trigger] s[k].time_recorded >= t,
        insert_index(s, t) < s.len() ==> t > s[insert_index(s, t)].time_recorded,
    decreases s.len(),
{
    if s.len() > 0 && !(t > s[0].time_recorded) {
        let r = s.drop_first();
        lemma_insert_index_props(r, t);
        assert forall|k: int| 0 <= k < insert_index(s, t) implies #[trigger] s[k].time_recorded
            >= t by {
            if k > 0 {
                assert(s[k] == r[k - 1]);
            }
        }
        if insert_index(s, t) < s.len() {
            assert(s[insert_index(s, t)] == r[insert_index(r, t)]);
        }
    }
}

/// Sorting a record in keeps a newest-first sequence newest first.
pub proof fn lemma_sorted_in_newest_first<T>(s: Seq<SensorRecord<T>>, rec: SensorRecord<T>)
    requires
        newest_first(s),
    ensures
        newest_first(sorted_in(s, rec)),
        sorted_in(s, rec).len() == s.len() + 1,
        sorted_in(s, rec)[insert_index(s, rec.time_recorded)] == rec,
{
    let t = rec.time_recorded;
    let p = insert_index(s, t);
    lemma_insert_index_props(s, t);
    let u = sorted_in(s, rec);
    assert forall|i: int, j: int| 0 <= i < j < u.len() implies #[trigger] u[i].time_recorded
        >= #[trigger] u[j].time_recorded by {
        if j < p {
            assert(u[i] == s[i] && u[j] == s[j]);
        } else if j == p {
            assert(u[i] == s[i]);
        } else if i < p {
            assert(u[i] == s[i] && u[j] == s[j - 1]);
            assert(s[i].time_recorded >= t);
            assert(s[p].time_recorded < t);
            if j - 1 > p {
                assert(s[p].time_recorded >= s[j - 1].time_recorded);
            }
        } else if i == p {
            assert(u[j] == s[j - 1]);
            assert(s[p].time_recorded < t);
            if j - 1 > p {
                assert(s[p].time_recorded >= s[j - 1].time_recorded);
            }
        } else {
            assert(u[i] == s[i - 1] && u[j] == s[j - 1]);
        }
    }
}

/// Keeping a record preserves a well-formed history.
pub proof fn lemma_kept_in_wf<T>(s: Seq<SensorRecord<T>>, rec: SensorRecord<T>, max_history: nat)
    requires
        history_wf(s, max_history),
    ensures
        history_wf(kept_in(s, rec, max_history), max_history),
{
    if !contains_id(s, rec.id@) {
        lemma_sorted_in_newest_first(s, rec);
        let p = insert_index(s, rec.time_recorded);
        lemma_insert_index_props(s, rec.time_recorded);
        let u = sorted_in(s, rec);
        assert forall|i: int, j: int| 0 <= i < j < u.len() implies #[trigger] u[i].id@
            != #[trigger] u[j].id@ by {
            if i == p {
                assert(u[j] == s[j - 1]);
            } else if j == p {
                assert(u[i] == s[i]);
            } else {
                let a = if i < p { i } else { i - 1 };
                let b = if j < p { j } else { j - 1 };
                assert(u[i] == s[a] && u[j] == s[b]);
            }
        }
        let k = kept_in(s, rec, max_history);
        assert forall|i: int, j: int| 0 <= i < j < k.len() implies #[trigger] k[i].time_recorded
            >= #[trigger] k[j].time_recorded by {
            assert(k[i] == u[i] && k[j] == u[j]);
        }
        assert forall|i: int, j: int| 0 <= i < j < k.len() implies #[trigger] k[i].id@
            != #[trigger] k[j].id@ by {
            assert(k[i] == u[i] && k[j] == u[j]);
        }
    }
}

/// Keeping several records preserves a well-formed history.
pub proof fn lemma_kept_in_all_wf<T>(
    s: Seq<SensorRecord<T>>,
    recs: Seq<SensorRecord<T>>,
    max_history: nat,
)
    requires
        history_wf(s, max_history),
    ensures
        history_wf(kept_in_all(s, recs, max_history), max_history),
    decreases recs.len(),
{
    if recs.len() > 0 {
        lemma_kept_in_all_wf(s, recs.drop_last(), max_history);
        lemma_kept_in_wf(kept_in_all(s, recs.drop_last(), max_history), recs.last(), max_history);
    }
}

/// In a well-formed history adjacent records are ordered newest first, and
/// the history holds at most `max_history` records.
pub proof fn lemma_history_order_and_bound<T>(s: Seq<SensorRecord<T>>, max_history: nat)
    requires
        history_wf(s, max_history),
    ensures
        forall|i: int| 0 <= i < s.len() - 1 ==> #[trigger] s[i].time_recorded >= s[i + 1].time_recorded,
        s.len() <= max_history,
{
    assert forall|i: int| 0 <= i < s.len() - 1 implies #[trigger] s[i].time_recorded >= s[i
        + 1].time_recorded by {
        assert(s[i].time_recorded >= s[i + 1].time_recorded);
    }
}

/// After a record arrives at a well-formed history, either the history holds
/// it, or the history was full and every record in it was at least as new.
pub proof fn lemma_kept_or_too_old<T>(s: Seq<SensorRecord<T>>, rec: SensorRecord<T>, max_history: nat)
    requires
        history_wf(s, max_history),
    ensures
        contains_id(kept_in(s, rec, max_history), rec.id@) || (s.len() == max_history && forall|
            k: int,
        | 0 <= k < s.len() ==> #[trigger] s[k].time_recorded >= rec.time_recorded),
{
    if !contains_id(s, rec.id@) {
        let p = insert_index(s, rec.time_recorded);
        lemma_insert_index_props(s, rec.time_recorded);
        lemma_sorted_in_newest_first(s, rec);
        let k = kept_in(s, rec, max_history);
        if p < max_history {
            assert(k[p] == rec);
        } else {
            assert(p == s.len());
        }
    }
}

/// With a bound of one, a history keeps only the newest record it has seen:
/// after a record with a new id arrives, the single record left is at least as
/// new as that record and as the one held before.
pub proof fn lemma_single_slot_keeps_newest<T>(s: Seq<SensorRecord<T>>, rec: SensorRecord<T>)
    requires
        history_wf(s, 1),
        !contains_id(s, rec.id@),
    ensures
        kept_in(s, rec, 1).len() == 1,
        kept_in(s, rec, 1)[0].time_recorded >= rec.time_recorded,
        forall|k: int| 0 <= k < s.len() ==> kept_in(s, rec, 1)[0].time_recorded >= #[trigger] s[k].time_recorded,
{
    lemma_insert_index_props(s, rec.time_recorded);
    lemma_sorted_in_newest_first(s, rec);
    let u = sorted_in(s, rec);
    assert(u[0].time_recorded >= u[u.len() - 1].time_recorded || u.len() == 1);
    if s.len() == 1 {
        let p = insert_index(s, rec.time_recorded);
        if p == 0 {
            assert(u[0] == rec && u[1] == s[0]);
        } else {
            assert(u[0] == s[0] && u[1] == rec);
        }
    } else {
        assert(u[0] == rec);
    }
}

/// The position at which a record of time `t` is sorted into `list`.
pub fn insert_position<T>(list: &VecDeque<SensorRecord<T>>, t: i64) -> (r: usize)
    ensures
        r == insert_index(list@, t),
{
    let mut i: usize = 0;
    let n = list.len();
    while i < n
        invariant
            n == list@.len(),
            i <= n,
            forall|k: int| 0 <= k < i ==> !(t > #[trigger] list@[k].time_recorded),
        decreases n - i,
    {
        if t > list[i].time_recorded {
            proof { lemma_insert_index_at(list@, t, i as int); }
            return i;
        }
        i = i + 1;
    }
    proof { lemma_insert_index_at(list@, t, i as int); }
    i
}

/// Sorts `rec` into the newest-first `list`: it goes before the first record
/// that is strictly older, or to the end if there is none. Records with an
/// equal time stay ahead of it.
pub fn sort_in_record<T>(list: &mut VecDeque<SensorRecord<T>>, rec: SensorRecord<T>)
    ensures
        final(list)@ == sorted_in(old(list)@, rec),
{
    let i = insert_position(list, rec.time_recorded);
    proof { lemma_insert_index_props(list@, rec.time_recorded); }
    list.insert(i, rec);
}

/// Sorts each record of `recs` into `list`, in order.
pub fn sort_in_records<T>(list: &mut VecDeque<SensorRecord<T>>, recs: Vec<SensorRecord<T>>)
    ensures
        final(list)@ == sorted_in_all(old(list)@, recs@),
{
    let ghost all = recs@;
    for rec in it: recs.into_iter()
        invariant
            it.seq() == all,
            list@ == sorted_in_all(old(list)@, all.take(it.index() as int)),
    {
        proof {
            let i = it.index() as int;
            assert(all.take(i + 1).drop_last() =~= all.take(i));
            assert(all.take(i + 1).last() == rec);
        }
        sort_in_record(list, rec);
    }
    assert(all.take(all.len() as int) =~= all);
}

/// Whether some record of `list` has the id of `rec`.
pub fn has_record<T>(list: &VecDeque<SensorRecord<T>>, rec: &SensorRecord<T>) -> (r: bool)
    ensures
        r == contains_id(list@, rec.id@),
{
    let mut i: usize = 0;
    while i < list.len()
        invariant
            i <= list@.len(),
            forall|k: int| 0 <= k < i ==> #[trigger] list@[k].id@ != rec.id@,
        decreases list@.len() - i,
    {
        if list[i].id == rec.id {
            return true;
        }
        i = i + 1;
    }
    false
}

/// Keeps `rec` in the bounded history `list`: a record whose id is present is
/// ignored; otherwise it is sorted in and the oldest record beyond
/// `max_history` is dropped, which is `rec` itself when it is not newer than
/// any record of a full history. Returns whether `rec` is in the history
/// afterwards.
pub fn keep_record<T>(list: &mut VecDeque<SensorRecord<T>>, rec: SensorRecord<T>, max_history: usize) -> (r: bool)
    ensures
        final(list)@ == kept_in(old(list)@, rec, max_history as nat),
        r == contains_id(final(list)@, rec.id@),
{
    if has_record(list, &rec) {
        return true;
    }
    let ghost id = rec.id@;
    let p = insert_position(list, rec.time_recorded);
    proof {
        lemma_insert_index_props(list@, rec.time_recorded);
    }
    sort_in_record(list, rec);
    assert(list@[p as int].id@ == id);
    list.truncate(max_history);
    let ghost fin = list@;
    if p < max_history {
        assert(fin[p as int].id@ == id);
        true
    } else {
        assert(!contains_id(fin, id)) by {
            assert forall|k: int| 0 <= k < fin.len() implies #[trigger] fin[k].id@ != id by {
                assert(fin[k] == sorted_in(old(list)@, rec)[k]);
                assert(sorted_in(old(list)@, rec)[k] == old(list)@[k]);
            }
        }
        false
    }
}

/// Keeps each record of `recs` in `list`, in order.
pub fn keep_records<T>(list: &mut VecDeque<SensorRecord<T>>, recs: Vec<SensorRecord<T>>, max_history: usize)
    ensures
        final(list)@ == kept_in_all(old(list)@, recs@, max_history as nat),
{
    let ghost all = recs@;
    for rec in it: recs.into_iter()
        invariant
            it.seq() == all,
            list@ == kept_in_all(old(list)@, all.take(it.index() as int), max_history as nat),
    {
        proof {
            let i = it.index() as int;
            assert(all.take(i + 1).drop_last() =~= all.take(i));
            assert(all.take(i + 1).last() == rec);
        }
        keep_record(list, rec, max_history);
    }
    assert(all.take(all.len() as int) =~= all);
}

} // verus!
