//! The stream's guarantees, stated over whole runs: consecutive sequence
//! numbers, non-decreasing instants, an exact one-interval cadence of the
//! data deadlines, independence of connections, and pings that never count.

use vstd::prelude::*;
use crate::stream::{
    data_due, fresh_stream, ping_due, step, EventStream, DATA_INTERVAL_MS,
};

verus! {

/// One data emission of a run: its sequence number, the instant it was
/// captured at, and the deadline it answered.
pub ghost struct Emission {
    /// The sequence number the event carries.
    pub sequence_id: int,
    /// The poll instant the event's timestamp was captured at.
    pub at_ms: int,
    /// The deadline the event answered.
    pub due_ms: int,
}

/// The state after polling once at each instant of `times`, in order.
pub open spec fn run(s: EventStream, times: Seq<i64>) -> EventStream
    decreases times.len(),
{
    if times.len() == 0 {
        s
    } else {
        run(step(s, times[0]), times.drop_first())
    }
}

/// The data events a run emits, in order.
pub open spec fn emissions(s: EventStream, times: Seq<i64>) -> Seq<Emission>
    decreases times.len(),
{
    if times.len() == 0 {
        Seq::empty()
    } else {
        let rest = emissions(step(s, times[0]), times.drop_first());
        if data_due(s, times[0]) {
            seq![
                Emission {
                    sequence_id: s.count + 1,
                    at_ms: times[0] as int,
                    due_ms: s.next_due_ms as int,
                },
            ] + rest
        } else {
            rest
        }
    }
}

/// Law: on one connection the data events are numbered consecutively — the
/// event at position `i` of a run carries the starting count plus `i + 1`,
/// so a fresh connection's events are numbered 1, 2, 3, …
pub proof fn lemma_ids_consecutive(s: EventStream, times: Seq<i64>)
    requires
        s.count + times.len() <= u64::MAX,
    ensures
        forall|i: int|
            0 <= i < emissions(s, times).len() ==> (#[trigger] emissions(s, times)[i]).sequence_id
                == s.count + 1 + i,
    decreases times.len(),
{
    if times.len() > 0 {
        let s1 = step(s, times[0]);
        let rest = times.drop_first();
        lemma_ids_consecutive(s1, rest);
        let e = emissions(s, times);
        let er = emissions(s1, rest);
        if data_due(s, times[0]) {
            assert forall|i: int| 0 <= i < e.len() implies (#[trigger] e[i]).sequence_id == s.count
                + 1 + i by {
                if i > 0 {
                    assert(e[i] == er[i - 1]);
                    assert(er[i - 1].sequence_id == s1.count + 1 + (i - 1));
                }
            }
        } else {
            assert forall|i: int| 0 <= i < e.len() implies (#[trigger] e[i]).sequence_id == s.count
                + 1 + i by {
                assert(e[i] == er[i]);
                assert(er[i].sequence_id == s1.count + 1 + i);
            }
        }
    }
}

/// Every emission of a run is captured at an instant no earlier than `lb`,
/// provided every poll instant is.
proof fn lemma_at_lower_bound(s: EventStream, times: Seq<i64>, lb: int)
    requires
        forall|i: int| 0 <= i < times.len() ==> #[trigger] times[i] >= lb,
    ensures
        forall|k: int|
            0 <= k < emissions(s, times).len() ==> (#[trigger] emissions(s, times)[k]).at_ms >= lb,
    decreases times.len(),
{
    if times.len() > 0 {
        let s1 = step(s, times[0]);
        let rest = times.drop_first();
        assert(forall|i: int| 0 <= i < rest.len() ==> #[trigger] rest[i] >= lb);
        lemma_at_lower_bound(s1, rest, lb);
        let e = emissions(s, times);
        let er = emissions(s1, rest);
        assert forall|k: int| 0 <= k < e.len() implies (#[trigger] e[k]).at_ms >= lb by {
            if data_due(s, times[0]) {
                if k > 0 {
                    assert(e[k] == er[k - 1]);
                }
            } else {
                assert(e[k] == er[k]);
            }
        }
    }
}

/// Law: with non-decreasing poll instants, the instants embedded in a
/// connection's data events are non-decreasing — each event's timestamp is
/// at least its predecessor's.
pub proof fn lemma_instants_monotone(s: EventStream, times: Seq<i64>)
    requires
        forall|i: int, j: int| 0 <= i <= j < times.len() ==> times[i] <= times[j],
    ensures
        forall|i: int, j: int|
            0 <= i <= j < emissions(s, times).len() ==> (#[trigger] emissions(s, times)[i]).at_ms
                <= (#[trigger] emissions(s, times)[j]).at_ms,
    decreases times.len(),
{
    if times.len() > 0 {
        let s1 = step(s, times[0]);
        let rest = times.drop_first();
        assert(forall|i: int, j: int| 0 <= i <= j < rest.len() ==> rest[i] <= rest[j]);
        lemma_instants_monotone(s1, rest);
        assert(forall|i: int| 0 <= i < rest.len() ==> #[trigger] rest[i] >= times[0]);
        lemma_at_lower_bound(s1, rest, times[0] as int);
        let e = emissions(s, times);
        let er = emissions(s1, rest);
        assert forall|i: int, j: int| 0 <= i <= j < e.len() implies (#[trigger] e[i]).at_ms
            <= (#[trigger] e[j]).at_ms by {
            if data_due(s, times[0]) {
                if i > 0 {
                    assert(e[i] == er[i - 1]);
                    assert(e[j] == er[j - 1]);
                } else if j > 0 {
                    assert(e[j] == er[j - 1]);
                    assert(er[j - 1].at_ms >= times[0]);
                }
            } else {
                assert(e[i] == er[i]);
                assert(e[j] == er[j]);
            }
        }
    }
}

/// Law: a connection's data deadlines advance by exactly one data interval
/// per event — the event at position `i` answers the starting deadline plus
/// `i` intervals, and is never captured before its deadline. This is the
/// one-second cadence: it is driven by the deadline alone, and a keep-alive
/// ping never shifts it.
pub proof fn lemma_cadence(s: EventStream, times: Seq<i64>)
    requires
        s.next_due_ms + times.len() * DATA_INTERVAL_MS <= i64::MAX,
    ensures
        forall|i: int|
            0 <= i < emissions(s, times).len() ==> (#[trigger] emissions(s, times)[i]).due_ms
                == s.next_due_ms + i * DATA_INTERVAL_MS,
        forall|i: int|
            0 <= i < emissions(s, times).len() ==> (#[trigger] emissions(s, times)[i]).at_ms
                >= (#[trigger] emissions(s, times)[i]).due_ms,
    decreases times.len(),
{
    if times.len() > 0 {
        let s1 = step(s, times[0]);
        let rest = times.drop_first();
        assert(s1.next_due_ms + rest.len() * DATA_INTERVAL_MS <= i64::MAX) by (nonlinear_arith)
            requires
                s.next_due_ms + times.len() * DATA_INTERVAL_MS <= i64::MAX,
                rest.len() == times.len() - 1,
                s1.next_due_ms <= s.next_due_ms + DATA_INTERVAL_MS,
                s1.next_due_ms >= s.next_due_ms,
        ;
        lemma_cadence(s1, rest);
        if data_due(s, times[0]) {
            assert(forall|i: int|
                0 <= i < emissions(s1, rest).len() ==> (#[trigger] emissions(s1, rest)[i]).due_ms
                    == s.next_due_ms + DATA_INTERVAL_MS + i * DATA_INTERVAL_MS);
        }
    }
}

/// Law: connections are independent — each starts its own counter at zero,
/// so whatever instants either connection is polled at, the events of each
/// are numbered 1, 2, 3, … with no influence from the other.
pub proof fn lemma_connections_independent(
    start_a: i64,
    times_a: Seq<i64>,
    start_b: i64,
    times_b: Seq<i64>,
)
    requires
        times_a.len() <= u64::MAX,
        times_b.len() <= u64::MAX,
    ensures
        forall|i: int|
            0 <= i < emissions(fresh_stream(start_a), times_a).len() ==> (#[trigger] emissions(
                fresh_stream(start_a),
                times_a,
            )[i]).sequence_id == i + 1,
        forall|i: int|
            0 <= i < emissions(fresh_stream(start_b), times_b).len() ==> (#[trigger] emissions(
                fresh_stream(start_b),
                times_b,
            )[i]).sequence_id == i + 1,
{
    lemma_ids_consecutive(fresh_stream(start_a), times_a);
    lemma_ids_consecutive(fresh_stream(start_b), times_b);
}

/// Law: the counter counts data events and nothing else — after any run,
/// the stream's count has grown by exactly the number of data events the
/// run emitted, whatever mixture of pings and idle polls lay between.
pub proof fn lemma_count_counts_emissions(s: EventStream, times: Seq<i64>)
    requires
        s.count + times.len() <= u64::MAX,
    ensures
        run(s, times).count == s.count + emissions(s, times).len(),
    decreases times.len(),
{
    if times.len() > 0 {
        let s1 = step(s, times[0]);
        lemma_count_counts_emissions(s1, times.drop_first());
    }
}

/// Law: a keep-alive ping counts for nothing — it leaves the event count
/// and the data deadline untouched, and a poll that answers with a ping
/// emits no data event.
pub proof fn lemma_ping_counts_nothing(s: EventStream, now_ms: i64)
    requires
        ping_due(s, now_ms),
    ensures
        step(s, now_ms).count == s.count,
        step(s, now_ms).next_due_ms == s.next_due_ms,
        emissions(s, seq![now_ms]).len() == 0,
{
    assert(emissions(step(s, now_ms), seq![now_ms].drop_first()).len() == 0);
}

} // verus!
