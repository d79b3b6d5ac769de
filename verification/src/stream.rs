//! The per-connection stream logic: a counter of data events, a one-second
//! data deadline, and a keep-alive ping for idle spells. One poll decides
//! among a data event, a ping and nothing, and advances the state.

use vstd::prelude::*;

verus! {

/// Milliseconds between two data events on one connection.
pub const DATA_INTERVAL_MS: i64 = 1000;

/// Milliseconds of idleness after which a keep-alive ping is due.
pub const KEEP_ALIVE_MS: i64 = 15000;

/// The state of one connection's stream: how many data events it has
/// emitted, when the next one is due, and when anything was last sent.
pub struct EventStream {
    /// Data events emitted so far; the next one carries this plus one.
    pub count: u64,
    /// The instant the next data event is due.
    pub next_due_ms: i64,
    /// The instant anything (data or ping) was last sent.
    pub last_sent_ms: i64,
}

/// What one poll of the stream does.
pub enum PollOutcome {
    /// Emit the data event with this sequence number, captured at this instant.
    Data { sequence_id: u64, at_ms: i64 },
    /// Emit an empty keep-alive comment.
    KeepAlive,
    /// Nothing is due yet.
    Idle,
}

/// A fresh connection: no events yet, the first data event due at once,
/// the connection instant standing as the last send.
pub open spec fn fresh_stream(now_ms: i64) -> EventStream {
    EventStream { count: 0, next_due_ms: now_ms, last_sent_ms: now_ms }
}

/// A data event is due once the instant has reached the stream's deadline.
pub open spec fn data_due(s: EventStream, now_ms: i64) -> bool {
    now_ms >= s.next_due_ms
}

/// A keep-alive ping is due when no data is due and nothing has been sent
/// for a whole keep-alive interval.
pub open spec fn ping_due(s: EventStream, now_ms: i64) -> bool {
    !data_due(s, now_ms) && now_ms - s.last_sent_ms >= KEEP_ALIVE_MS
}

/// Room for the arithmetic of one more poll.
pub open spec fn can_step(s: EventStream) -> bool {
    s.count < u64::MAX && s.next_due_ms + DATA_INTERVAL_MS <= i64::MAX
}

/// The state after one poll at `now_ms`: a data emission advances the count
/// by one and the deadline by exactly one interval; a ping only marks the
/// send; otherwise nothing changes.
pub open spec fn step(s: EventStream, now_ms: i64) -> EventStream {
    if data_due(s, now_ms) {
        EventStream {
            count: (s.count + 1) as u64,
            next_due_ms: (s.next_due_ms + DATA_INTERVAL_MS) as i64,
            last_sent_ms: now_ms,
        }
    } else if ping_due(s, now_ms) {
        EventStream { last_sent_ms: now_ms, ..s }
    } else {
        s
    }
}

impl EventStream {
    /// Opens a fresh connection at the instant `now_ms`.
    pub fn new(now_ms: i64) -> (s: EventStream)
        ensures
            s == fresh_stream(now_ms),
    {
        EventStream { count: 0, next_due_ms: now_ms, last_sent_ms: now_ms }
    }

    /// One poll at `now_ms`: decides among a data event, a keep-alive ping
    /// and nothing, and advances the state as `step` says. A data outcome
    /// carries the next sequence number and the instant; a ping never
    /// touches the count or the deadline.
    pub fn on_poll(&mut self, now_ms: i64) -> (outcome: PollOutcome)
        requires
            can_step(*old(self)),
        ensures
            *final(self) == step(*old(self), now_ms),
            outcome is Data <==> data_due(*old(self), now_ms),
            outcome is KeepAlive <==> ping_due(*old(self), now_ms),
            outcome is Idle <==> (!data_due(*old(self), now_ms) && !ping_due(
                *old(self),
                now_ms,
            )),
            outcome matches PollOutcome::Data { sequence_id, at_ms } ==> sequence_id as int
                == old(self).count + 1 && at_ms == now_ms,
    {
        if now_ms >= self.next_due_ms {
            self.count = self.count + 1;
            self.next_due_ms = self.next_due_ms + DATA_INTERVAL_MS;
            self.last_sent_ms = now_ms;
            PollOutcome::Data { sequence_id: self.count, at_ms: now_ms }
        } else {
            let idle: i128 = (now_ms as i128) - (self.last_sent_ms as i128);
            if idle >= KEEP_ALIVE_MS as i128 {
                self.last_sent_ms = now_ms;
                PollOutcome::KeepAlive
            } else {
                PollOutcome::Idle
            }
        }
    }
}

} // verus!
