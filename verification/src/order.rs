//! The ordering policy applied to a flushed batch.
//!
//! A batch is either handed to the sink in producer arrival order (the
//! default), or sorted by each event's captured timestamp, ascending, with
//! ties broken by arrival order (a stable sort). Ordering is applied to one
//! batch at a time, just before the sink call; it never reorders across
//! batches.

use vstd::prelude::*;

use crate::dispatch::LogEvent;

verus! {

/// The sequence is ascending in timestamp.
pub open spec fn sorted_by_timestamp(s: Seq<LogEvent>) -> bool {
    forall|i: int, j: int| 0 <= i < j < s.len() ==> s[i].timestamp <= s[j].timestamp
}

/// Insert `e` into `s` from the right: after every element whose timestamp
/// is at most `e`'s (so ties keep arrival order), before every strictly
/// later element.
pub open spec fn insert_by_timestamp(s: Seq<LogEvent>, e: LogEvent) -> Seq<LogEvent>
    decreases s.len(),
{
    if s.len() == 0 {
        seq![e]
    } else if s.last().timestamp <= e.timestamp {
        s.push(e)
    } else {
        insert_by_timestamp(s.drop_last(), e).push(s.last())
    }
}

/// Stable sort by timestamp: the events are inserted one by one, in arrival
/// order, each after the already-placed events of equal timestamp.
pub open spec fn sort_by_timestamp(s: Seq<LogEvent>) -> Seq<LogEvent>
    decreases s.len(),
{
    if s.len() == 0 {
        Seq::<LogEvent>::empty()
    } else {
        insert_by_timestamp(sort_by_timestamp(s.drop_last()), s.last())
    }
}

/// The subsequence of events carrying exactly timestamp `t`, in order.
pub open spec fn with_timestamp(s: Seq<LogEvent>, t: int) -> Seq<LogEvent> {
    s.filter(|e: LogEvent| e.timestamp == t)
}

pub proof fn lemma_insert_by_timestamp_len(s: Seq<LogEvent>, e: LogEvent)
    ensures
        insert_by_timestamp(s, e).len() == s.len() + 1,
    decreases s.len(),
{
    if s.len() == 0 {
    } else if s.last().timestamp <= e.timestamp {
    } else {
        lemma_insert_by_timestamp_len(s.drop_last(), e);
    }
}

proof fn lemma_insert_by_timestamp_bound(s: Seq<LogEvent>, e: LogEvent, b: int)
    requires
        forall|i: int| 0 <= i < s.len() ==> (#[trigger] s[i]).timestamp <= b,
        e.timestamp <= b,
    ensures
        forall|i: int|
            0 <= i < insert_by_timestamp(s, e).len() ==> (#[trigger] insert_by_timestamp(
                s,
                e,
            )[i]).timestamp <= b,
    decreases s.len(),
{
    if s.len() == 0 {
    } else if s.last().timestamp <= e.timestamp {
        let res = s.push(e);
        assert forall|i: int| 0 <= i < res.len() implies (#[trigger] res[i]).timestamp <= b by {
            if i < s.len() {
                assert(res[i] == s[i]);
            } else {
                assert(res[i] == e);
            }
        }
    } else {
        let s2 = s.drop_last();
        assert forall|i: int| 0 <= i < s2.len() implies (#[trigger] s2[i]).timestamp <= b by {
            assert(s2[i] == s[i]);
        }
        lemma_insert_by_timestamp_bound(s2, e, b);
        let ins2 = insert_by_timestamp(s2, e);
        let res = ins2.push(s.last());
        assert(s[s.len() - 1].timestamp <= b);
        assert forall|i: int| 0 <= i < res.len() implies (#[trigger] res[i]).timestamp <= b by {
            if i < ins2.len() {
                assert(res[i] == ins2[i]);
            } else {
                assert(res[i] == s.last());
            }
        }
    }
}

/// Appending one event to a sequence extends its per-timestamp subsequence
/// exactly when the event carries that timestamp.
proof fn lemma_with_timestamp_push(s: Seq<LogEvent>, e: LogEvent, t: int)
    ensures
        with_timestamp(s.push(e), t) == (if e.timestamp == t {
            with_timestamp(s, t).push(e)
        } else {
            with_timestamp(s, t)
        }),
{
    reveal(Seq::filter);
    assert(s.push(e).drop_last() =~= s);
    assert(s.push(e).last() == e);
}

/// Inserting into a sorted sequence keeps it sorted.
pub proof fn lemma_insert_by_timestamp_sorted(s: Seq<LogEvent>, e: LogEvent)
    requires
        sorted_by_timestamp(s),
    ensures
        sorted_by_timestamp(insert_by_timestamp(s, e)),
    decreases s.len(),
{
    if s.len() == 0 {
    } else if s.last().timestamp <= e.timestamp {
    } else {
        let s2 = s.drop_last();
        assert(sorted_by_timestamp(s2));
        lemma_insert_by_timestamp_sorted(s2, e);
        lemma_insert_by_timestamp_len(s2, e);
        assert forall|i: int| 0 <= i < s2.len() implies (#[trigger] s2[i]).timestamp
            <= s.last().timestamp by {
            assert(s[i].timestamp <= s[s.len() - 1].timestamp);
        }
        lemma_insert_by_timestamp_bound(s2, e, s.last().timestamp as int);
    }
}

/// Insertion adds exactly the inserted event to the sequence's contents.
pub proof fn lemma_insert_by_timestamp_multiset(s: Seq<LogEvent>, e: LogEvent)
    ensures
        insert_by_timestamp(s, e).to_multiset() == s.to_multiset().insert(e),
    decreases s.len(),
{
    broadcast use vstd::seq_lib::group_to_multiset_ensures;

    if s.len() == 0 {
        assert(seq![e] =~= s.push(e));
    } else if s.last().timestamp <= e.timestamp {
    } else {
        let s2 = s.drop_last();
        let l = s.last();
        lemma_insert_by_timestamp_multiset(s2, e);
        assert(s =~= s2.push(l));
        assert(insert_by_timestamp(s, e).to_multiset() =~= insert_by_timestamp(
            s2,
            e,
        ).to_multiset().insert(l));
        assert(s2.to_multiset().insert(e).insert(l) =~= s2.to_multiset().insert(l).insert(e));
    }
}

proof fn lemma_insert_by_timestamp_with_timestamp(s: Seq<LogEvent>, e: LogEvent, t: int)
    ensures
        with_timestamp(insert_by_timestamp(s, e), t) == (if e.timestamp == t {
            with_timestamp(s, t).push(e)
        } else {
            with_timestamp(s, t)
        }),
    decreases s.len(),
{
    if s.len() == 0 {
        assert(seq![e] =~= s.push(e));
        lemma_with_timestamp_push(s, e, t);
    } else if s.last().timestamp <= e.timestamp {
        lemma_with_timestamp_push(s, e, t);
    } else {
        let s2 = s.drop_last();
        let l = s.last();
        let ins2 = insert_by_timestamp(s2, e);
        lemma_insert_by_timestamp_with_timestamp(s2, e, t);
        lemma_with_timestamp_push(ins2, l, t);
        lemma_with_timestamp_push(s2, l, t);
        assert(s =~= s2.push(l));
    }
}

/// Sorting yields an ascending sequence.
pub proof fn lemma_sort_by_timestamp_sorted(s: Seq<LogEvent>)
    ensures
        sorted_by_timestamp(sort_by_timestamp(s)),
    decreases s.len(),
{
    if s.len() == 0 {
    } else {
        lemma_sort_by_timestamp_sorted(s.drop_last());
        lemma_insert_by_timestamp_sorted(sort_by_timestamp(s.drop_last()), s.last());
    }
}

/// Sorting permutes the batch: no event is lost, duplicated or invented.
pub proof fn lemma_sort_by_timestamp_multiset(s: Seq<LogEvent>)
    ensures
        sort_by_timestamp(s).to_multiset() == s.to_multiset(),
        sort_by_timestamp(s).len() == s.len(),
    decreases s.len(),
{
    broadcast use vstd::seq_lib::group_to_multiset_ensures;

    if s.len() == 0 {
    } else {
        let s2 = s.drop_last();
        let l = s.last();
        lemma_sort_by_timestamp_multiset(s2);
        lemma_insert_by_timestamp_multiset(sort_by_timestamp(s2), l);
        lemma_insert_by_timestamp_len(sort_by_timestamp(s2), l);
        assert(s =~= s2.push(l));
    }
}

/// Sorting is stable: for every timestamp, the events carrying it come out
/// in exactly the order in which they arrived.
pub proof fn lemma_sort_by_timestamp_stable(s: Seq<LogEvent>, t: int)
    ensures
        with_timestamp(sort_by_timestamp(s), t) == with_timestamp(s, t),
    decreases s.len(),
{
    if s.len() == 0 {
        reveal(Seq::filter);
    } else {
        let s2 = s.drop_last();
        let l = s.last();
        lemma_sort_by_timestamp_stable(s2, t);
        lemma_insert_by_timestamp_with_timestamp(sort_by_timestamp(s2), l, t);
        lemma_with_timestamp_push(s2, l, t);
        assert(s =~= s2.push(l));
    }
}

/// The exact position where a stable insertion puts the event: the
/// insertion from the right lands just after the rightmost element whose
/// timestamp is at most the event's.
proof fn lemma_insert_by_timestamp_at(s: Seq<LogEvent>, e: LogEvent, j: int)
    requires
        0 <= j <= s.len(),
        forall|k: int| j <= k < s.len() ==> (#[trigger] s[k]).timestamp > e.timestamp,
        j > 0 ==> s[j - 1].timestamp <= e.timestamp,
    ensures
        insert_by_timestamp(s, e) == s.insert(j, e),
    decreases s.len(),
{
    if j == s.len() {
        if s.len() == 0 {
            assert(seq![e] =~= s.insert(j, e));
        } else {
            assert(s.last().timestamp <= e.timestamp);
            assert(s.push(e) =~= s.insert(j, e));
        }
    } else {
        assert(s[s.len() - 1].timestamp > e.timestamp);
        let s2 = s.drop_last();
        lemma_insert_by_timestamp_at(s2, e, j);
        assert(s2.insert(j, e).push(s.last()) =~= s.insert(j, e));
    }
}

/// Find the position where a stable insertion puts `event` in the sorted
/// batch: after every element with an equal or earlier timestamp, before
/// every strictly later one.
fn insert_position(batch: &Vec<LogEvent>, event: &LogEvent) -> (j: usize)
    ensures
        j <= batch@.len(),
        forall|k: int| j <= k < batch@.len() ==> (#[trigger] batch@[k]).timestamp > event.timestamp,
        j > 0 ==> batch@[j - 1].timestamp <= event.timestamp,
{
    let mut j: usize = batch.len();
    while j > 0 && batch[j - 1].timestamp > event.timestamp
        invariant
            j <= batch@.len(),
            forall|k: int|
                j <= k < batch@.len() ==> (#[trigger] batch@[k]).timestamp > event.timestamp,
        decreases j,
    {
        j = j - 1;
    }
    j
}

/// Sort a batch by timestamp, ascending, stably: events with equal
/// timestamps keep their arrival order.
pub fn sort_batch_by_timestamp(batch: Vec<LogEvent>) -> (r: Vec<LogEvent>)
    ensures
        r@ == sort_by_timestamp(batch@),
{
    let ghost orig: Seq<LogEvent> = batch@;
    let mut rest = batch;
    let mut sorted: Vec<LogEvent> = Vec::new();
    let ghost mut done: Seq<LogEvent> = Seq::empty();
    while rest.len() > 0
        invariant
            done + rest@ == orig,
            sorted@ == sort_by_timestamp(done),
        decreases rest@.len(),
    {
        let ghost rest_before = rest@;
        let event = rest.remove(0);
        let j = insert_position(&sorted, &event);
        proof {
            lemma_insert_by_timestamp_at(sorted@, event, j as int);
        }
        sorted.insert(j, event);
        proof {
            assert(done.push(event).drop_last() =~= done);
            assert(done.push(event) + rest@ =~= done + rest_before);
            done = done.push(event);
        }
    }
    proof {
        assert(done =~= orig);
    }
    sorted
}

} // verus!
