use shredring::ring::{
    default_housekeeping_interval_ns, housekeeping_tick, plan_next_housekeeping, CopyOutcome,
    PollOutcome, RingConsumer, RingCounters,
};

#[test]
fn new_consumer_starts_clean() {
    let c = RingConsumer::new(8, 42);
    assert_eq!(c.depth, 8);
    assert_eq!(c.expected_seq, 42);
    assert_eq!(c.counters, RingCounters::zeroed());
}

#[test]
fn line_index_wraps_by_depth() {
    let c = RingConsumer::new(8, 10);
    assert_eq!(c.line_index(), 2);
    let c2 = RingConsumer::new(5, 3);
    assert_eq!(c2.line_index(), 3);
}

#[test]
fn in_order_delivery_without_overrun() {
    // A producer publishes sequences 0..N-1; a consumer started at k < N
    // must emit exactly the payloads of k..N-1 in order with zero overrun
    // counters.
    let n: u64 = 20;
    let k: u64 = 7;
    let payloads: Vec<Vec<u8>> = (0..n).map(|i| vec![i as u8; (i as usize % 5) + 1]).collect();
    let mut c = RingConsumer::new(8, k);
    let mut emitted: Vec<Vec<u8>> = Vec::new();
    let mut seq = k;
    while seq < n {
        // The record for `seq` is published and stable.
        assert_eq!(c.poll(seq), PollOutcome::Proceed);
        let copy = payloads[seq as usize].clone();
        match c.validate_copy(seq, copy.len() as u64) {
            CopyOutcome::Deliver => emitted.push(copy),
            CopyOutcome::Discard => panic!("stable record discarded"),
        }
        seq = c.expected_seq;
    }
    let expected: Vec<Vec<u8>> = payloads[k as usize..].to_vec();
    assert_eq!(emitted, expected);
    assert_eq!(c.counters.published, n - k);
    let bytes: u64 = expected.iter().map(|p| p.len() as u64).sum();
    assert_eq!(c.counters.published_bytes, bytes);
    assert_eq!(c.counters.overrun_while_polling, 0);
    assert_eq!(c.counters.overrun_while_copying, 0);
    assert_eq!(c.expected_seq, n);
}

#[test]
fn not_yet_published_waits_without_change() {
    let mut c = RingConsumer::new(8, 10);
    // The record still carries an older sequence: spin, change nothing.
    assert_eq!(c.poll(2), PollOutcome::NotYetPublished);
    assert_eq!(c.expected_seq, 10);
    assert_eq!(c.counters, RingCounters::zeroed());
}

#[test]
fn overrun_while_polling_adopts_latest() {
    // The producer advanced past us before the poll: the adopted sequence
    // must be the latest published one, not an intermediate value, and
    // overrun_while_polling must grow by exactly 1 per event.
    let mut c = RingConsumer::new(8, 5);
    assert_eq!(c.poll(93), PollOutcome::Proceed);
    assert_eq!(c.expected_seq, 93);
    assert_eq!(c.counters.overrun_while_polling, 1);
    assert_eq!(c.counters.overrun_while_copying, 0);
    assert_eq!(c.counters.published, 0);

    // Deliver one message, then a second overrun event.
    assert_eq!(c.validate_copy(93, 10), CopyOutcome::Deliver);
    assert_eq!(c.expected_seq, 94);
    assert_eq!(c.poll(200), PollOutcome::Proceed);
    assert_eq!(c.expected_seq, 200);
    assert_eq!(c.counters.overrun_while_polling, 2);
    assert_eq!(c.counters.published, 1);
}

#[test]
fn torn_copy_is_discarded() {
    let mut c = RingConsumer::new(8, 5);
    assert_eq!(c.poll(5), PollOutcome::Proceed);
    // The producer overwrote the record while we copied: the re-read shows
    // a newer sequence, the copy is torn and must be dropped.
    assert_eq!(c.validate_copy(13, 100), CopyOutcome::Discard);
    assert_eq!(c.expected_seq, 13);
    assert_eq!(c.counters.overrun_while_copying, 1);
    assert_eq!(c.counters.published, 0);
    assert_eq!(c.counters.published_bytes, 0);
}

#[test]
fn default_interval_is_clamped() {
    assert_eq!(default_housekeeping_interval_ns(0), 1);
    assert_eq!(default_housekeeping_interval_ns(1), 1);
    assert_eq!(default_housekeeping_interval_ns(10), 5);
    assert_eq!(default_housekeeping_interval_ns(u64::MAX), 1_000_000_000);
}

#[test]
fn next_housekeeping_is_jittered_in_range() {
    // The deadline must land in [now + T, now + 2T]; a wrapper that
    // ignored the range could not satisfy this for every draw.
    for _ in 0..32 {
        let next = plan_next_housekeeping(1_000_000, 1000);
        assert!(next >= 1_001_000);
        assert!(next <= 1_002_000);
    }
    assert_eq!(plan_next_housekeeping(i64::MAX - 1, 1000), i64::MAX);
}

#[test]
fn housekeeping_tick_follows_the_clock() {
    // A deadline in the far past is always due; the new deadline is
    // jittered from the observed time.
    let (now, due, next) = housekeeping_tick(0, 500);
    assert!(due);
    assert!(now >= 0);
    assert!(next >= now + 500);
    assert!(next <= now + 1000);
    // A deadline at the far end of time is never due and stays put.
    let (_, due2, next2) = housekeeping_tick(i64::MAX, 500);
    assert!(!due2);
    assert_eq!(next2, i64::MAX);
}
