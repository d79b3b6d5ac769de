use angel_sse::stream::{EventStream, PollOutcome};

fn expect_data(outcome: PollOutcome) -> (u64, i64) {
    match outcome {
        PollOutcome::Data { sequence_id, at_ms } => (sequence_id, at_ms),
        PollOutcome::KeepAlive => panic!("expected a data event, got a keep-alive"),
        PollOutcome::Idle => panic!("expected a data event, got nothing"),
    }
}

#[test]
fn fresh_connection_starts_at_zero() {
    let s = EventStream::new(5000);
    assert_eq!(s.count, 0);
    assert_eq!(s.next_due_ms, 5000);
    assert_eq!(s.last_sent_ms, 5000);
}

#[test]
fn first_event_is_number_one_and_immediate() {
    let mut s = EventStream::new(1000);
    let (id, at) = expect_data(s.on_poll(1000));
    assert_eq!(id, 1);
    assert_eq!(at, 1000);
    assert_eq!(s.count, 1);
    assert_eq!(s.next_due_ms, 2000);
}

#[test]
fn events_are_numbered_consecutively() {
    let mut s = EventStream::new(0);
    let mut now: i64 = 0;
    for expected in 1..=5u64 {
        let (id, _) = expect_data(s.on_poll(now));
        assert_eq!(id, expected);
        now += 1000;
    }
}

#[test]
fn nothing_is_due_between_ticks() {
    let mut s = EventStream::new(1000);
    expect_data(s.on_poll(1000));
    assert!(matches!(s.on_poll(1400), PollOutcome::Idle));
    assert!(matches!(s.on_poll(1999), PollOutcome::Idle));
    let (id, at) = expect_data(s.on_poll(2000));
    assert_eq!(id, 2);
    assert_eq!(at, 2000);
}

#[test]
fn deadlines_advance_by_exactly_one_interval() {
    let mut s = EventStream::new(0);
    // Polls arrive late; the deadline still advances interval by interval.
    expect_data(s.on_poll(250));
    assert_eq!(s.next_due_ms, 1000);
    expect_data(s.on_poll(1700));
    assert_eq!(s.next_due_ms, 2000);
    expect_data(s.on_poll(2000));
    assert_eq!(s.next_due_ms, 3000);
}

#[test]
fn keep_alive_fires_when_idle_and_counts_nothing() {
    // A stream whose next data event lies far ahead, idle past the
    // keep-alive interval.
    let mut s = EventStream {
        count: 3,
        next_due_ms: 100000,
        last_sent_ms: 0,
    };
    assert!(matches!(s.on_poll(15000), PollOutcome::KeepAlive));
    assert_eq!(s.count, 3);
    assert_eq!(s.next_due_ms, 100000);
    assert_eq!(s.last_sent_ms, 15000);
    // Freshly pinged: nothing is due again until another idle spell.
    assert!(matches!(s.on_poll(20000), PollOutcome::Idle));
    assert!(matches!(s.on_poll(30000), PollOutcome::KeepAlive));
    assert_eq!(s.count, 3);
}

#[test]
fn short_idleness_sends_nothing() {
    let mut s = EventStream {
        count: 1,
        next_due_ms: 50000,
        last_sent_ms: 0,
    };
    assert!(matches!(s.on_poll(14999), PollOutcome::Idle));
    assert_eq!(s.last_sent_ms, 0);
}

#[test]
fn connections_are_independent() {
    let mut a = EventStream::new(0);
    let mut b = EventStream::new(0);
    let (id_a1, _) = expect_data(a.on_poll(0));
    let (id_b1, _) = expect_data(b.on_poll(0));
    assert_eq!(id_a1, 1);
    assert_eq!(id_b1, 1);
    // The first connection goes away; the second keeps its own numbering.
    drop(a);
    let (id_b2, _) = expect_data(b.on_poll(1000));
    assert_eq!(id_b2, 2);
    let mut c = EventStream::new(2000);
    let (id_c1, _) = expect_data(c.on_poll(2000));
    assert_eq!(id_c1, 1);
}

#[test]
fn embedded_instants_never_decrease() {
    let mut s = EventStream::new(0);
    let mut last_at: i64 = i64::MIN;
    for now in [0i64, 1000, 2000, 2000, 3500, 4500] {
        if let PollOutcome::Data { at_ms, .. } = s.on_poll(now) {
            assert!(at_ms >= last_at);
            last_at = at_ms;
        }
    }
}
