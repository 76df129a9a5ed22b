//! An unreliable, overrun-tolerant ring consumer.
//!
//! One producer publishes variable-size framed messages into a fixed-depth
//! circular buffer of metadata records, each carrying a monotonically
//! increasing sequence number.  The consumer busy-polls; synchronization is
//! a seqlock-style read-copy-reread of the record's sequence number, with no
//! lock and no flow-control signal back to the producer, so the consumer
//! accepts arbitrary data loss under sustained overrun but never treats a
//! torn read as valid.
//!
//! This module is the decision core of that protocol.  The outer polling
//! loop performs the shared-memory reads, the speculative payload copy and
//! the delivery, and feeds the observed sequence numbers to `poll` and
//! `validate_copy`; those decide whether to wait, adopt a newer sequence
//! (counting the overrun), deliver, or discard.  The periodic diagnostics
//! flush is scheduled here too, with a randomized jitter drawn through
//! `rand` and the clock read through `chrono`.
//!
//! The core judges only the sequence numbers it is fed; it does not model
//! the producer's own invariant that each record line's published sequence
//! only grows.  Run-level facts that rest on that invariant — for one, that
//! the sequence numbers of delivered payloads strictly increase across
//! overruns — hold of the whole loop only together with that producer
//! guarantee; what the core itself guarantees is that a payload is only
//! ever delivered for exactly the sequence the consumer expects.

use vstd::prelude::*;

use rand::Rng;

verus! {

/// Running counters of one consumer, flushed periodically to a diagnostics
/// sink.  Overruns are expected steady-state events under load, counted and
/// never surfaced as failures.
#[derive(Clone, Copy, Debug, PartialEq, Eq, Structural)]
pub struct RingCounters {
    /// Messages delivered.
    pub published: u64,
    /// Bytes of the delivered messages.
    pub published_bytes: u64,
    /// Messages filtered out (this consumer filters nothing).
    pub filtered: u64,
    /// Bytes of the filtered messages.
    pub filtered_bytes: u64,
    /// Producer wrapped past us between two polls.
    pub overrun_while_polling: u64,
    /// Producer wrapped past us while we copied a payload.
    pub overrun_while_copying: u64,
    /// Times we signalled the producer we were slow (never: no flow control).
    pub slow: u64,
}

impl RingCounters {
    /// All counters zero.
    pub open spec fn spec_zeroed() -> RingCounters {
        RingCounters {
            published: 0,
            published_bytes: 0,
            filtered: 0,
            filtered_bytes: 0,
            overrun_while_polling: 0,
            overrun_while_copying: 0,
            slow: 0,
        }
    }

    /// All counters zero, as written to the sink at startup.
    pub fn zeroed() -> (c: RingCounters)
        ensures
            c == RingCounters::spec_zeroed(),
    {
        RingCounters {
            published: 0,
            published_bytes: 0,
            filtered: 0,
            filtered_bytes: 0,
            overrun_while_polling: 0,
            overrun_while_copying: 0,
            slow: 0,
        }
    }
}

/// What the first sequence read of an iteration decides.
#[derive(Clone, Copy, Debug, PartialEq, Eq, Structural)]
pub enum PollOutcome {
    /// The record is older than expected: not yet published, spin and retry.
    NotYetPublished,
    /// The expected (or an adopted newer) record is there: copy its payload.
    Proceed,
}

/// What the re-read after the speculative copy decides.
#[derive(Clone, Copy, Debug, PartialEq, Eq, Structural)]
pub enum CopyOutcome {
    /// The sequence was stable across the copy: the payload is valid, emit it.
    Deliver,
    /// The producer overwrote the record during the copy: the payload is
    /// torn, drop it and resynchronize.
    Discard,
}

/// The consumer's state: the next sequence number it expects to process,
/// the ring depth it uses to locate the record line, and its counters.
pub struct RingConsumer {
    /// Fixed depth of the ring (number of record lines), at least 1.
    pub depth: u64,
    /// Next sequence number the consumer expects to process.
    pub expected_seq: u64,
    /// Running diagnostics counters.
    pub counters: RingCounters,
}

impl RingConsumer {
    /// A consumer over a ring of the given depth, starting at the currently
    /// published sequence number, with zeroed counters.
    pub fn new(depth: u64, start_seq: u64) -> (c: RingConsumer)
        requires
            depth >= 1,
        ensures
            c.depth == depth,
            c.expected_seq == start_seq,
            c.counters == RingCounters::spec_zeroed(),
    {
        RingConsumer { depth, expected_seq: start_seq, counters: RingCounters::zeroed() }
    }

    /// The record line the expected sequence number lives in.
    pub open spec fn spec_line_index(self) -> int {
        self.expected_seq as int % self.depth as int
    }

    /// Where in the ring to read the record for the expected sequence.
    pub fn line_index(&self) -> (r: u64)
        requires
            self.depth >= 1,
        ensures
            r == self.spec_line_index(),
    {
        self.expected_seq % self.depth
    }

    /// The poll decision: a sequence below the expected one means the slot
    /// is not yet published (wait without changing anything); the expected
    /// one means proceed; a greater one means the producer overran us, so
    /// adopt it (everything between is lost by design) and count the
    /// overrun.
    pub open spec fn spec_poll(self, seq_found: u64) -> (RingConsumer, PollOutcome) {
        if seq_found < self.expected_seq {
            (self, PollOutcome::NotYetPublished)
        } else if seq_found == self.expected_seq {
            (self, PollOutcome::Proceed)
        } else {
            (
                RingConsumer {
                    depth: self.depth,
                    expected_seq: seq_found,
                    counters: RingCounters {
                        overrun_while_polling: (self.counters.overrun_while_polling + 1) as u64,
                        ..self.counters
                    },
                },
                PollOutcome::Proceed,
            )
        }
    }

    /// Act on the sequence number read from the expected record line before
    /// copying.  On an overrun the adopted sequence is exactly the observed
    /// one — never an intermediate value — and `overrun_while_polling` grows
    /// by exactly 1 per such event, with every other field unchanged.
    pub fn poll(&mut self, seq_found: u64) -> (r: PollOutcome)
        requires
            old(self).counters.overrun_while_polling < u64::MAX,
        ensures
            (*final(self), r) == old(self).spec_poll(seq_found),
            seq_found < old(self).expected_seq ==> r == PollOutcome::NotYetPublished && *final(self)
                == *old(self),
            seq_found == old(self).expected_seq ==> r == PollOutcome::Proceed && *final(self)
                == *old(self),
            seq_found > old(self).expected_seq ==> {
                &&& r == PollOutcome::Proceed
                &&& final(self).expected_seq == seq_found
                &&& final(self).counters.overrun_while_polling
                    == old(self).counters.overrun_while_polling + 1
                &&& final(self).depth == old(self).depth
                &&& final(self).counters.published == old(self).counters.published
                &&& final(self).counters.published_bytes == old(self).counters.published_bytes
                &&& final(self).counters.overrun_while_copying
                    == old(self).counters.overrun_while_copying
            },
    {
        if seq_found < self.expected_seq {
            PollOutcome::NotYetPublished
        } else if seq_found == self.expected_seq {
            PollOutcome::Proceed
        } else {
            self.counters.overrun_while_polling = self.counters.overrun_while_polling + 1;
            self.expected_seq = seq_found;
            PollOutcome::Proceed
        }
    }

    /// The re-validation decision after the speculative copy: an unchanged
    /// sequence makes the copy valid (count and deliver it, advance by one);
    /// any other value means the copy is torn (count the overrun, adopt the
    /// new sequence, discard the copy).
    pub open spec fn spec_validate(self, seq_found: u64, payload_len: u64) -> (
        RingConsumer,
        CopyOutcome,
    ) {
        if seq_found == self.expected_seq {
            (
                RingConsumer {
                    depth: self.depth,
                    expected_seq: (self.expected_seq + 1) as u64,
                    counters: RingCounters {
                        published: (self.counters.published + 1) as u64,
                        published_bytes: (self.counters.published_bytes + payload_len) as u64,
                        ..self.counters
                    },
                },
                CopyOutcome::Deliver,
            )
        } else {
            (
                RingConsumer {
                    depth: self.depth,
                    expected_seq: seq_found,
                    counters: RingCounters {
                        overrun_while_copying: (self.counters.overrun_while_copying + 1) as u64,
                        ..self.counters
                    },
                },
                CopyOutcome::Discard,
            )
        }
    }

    /// Act on the sequence number re-read after the payload of
    /// `payload_len` bytes was speculatively copied out of the ring.
    pub fn validate_copy(&mut self, seq_found: u64, payload_len: u64) -> (r: CopyOutcome)
        requires
            old(self).expected_seq < u64::MAX,
            old(self).counters.published < u64::MAX,
            old(self).counters.published_bytes + payload_len <= u64::MAX,
            old(self).counters.overrun_while_copying < u64::MAX,
        ensures
            (*final(self), r) == old(self).spec_validate(seq_found, payload_len),
            seq_found == old(self).expected_seq ==> {
                &&& r == CopyOutcome::Deliver
                &&& final(self).expected_seq == old(self).expected_seq + 1
                &&& final(self).counters.published == old(self).counters.published + 1
                &&& final(self).counters.published_bytes
                    == old(self).counters.published_bytes + payload_len
            },
            seq_found != old(self).expected_seq ==> {
                &&& r == CopyOutcome::Discard
                &&& final(self).expected_seq == seq_found
                &&& final(self).counters.overrun_while_copying
                    == old(self).counters.overrun_while_copying + 1
                &&& final(self).counters.published == old(self).counters.published
            },
    {
        if seq_found == self.expected_seq {
            self.counters.published = self.counters.published + 1;
            self.counters.published_bytes = self.counters.published_bytes + payload_len;
            self.expected_seq = self.expected_seq + 1;
            CopyOutcome::Deliver
        } else {
            self.counters.overrun_while_copying = self.counters.overrun_while_copying + 1;
            self.expected_seq = seq_found;
            CopyOutcome::Discard
        }
    }

    /// A copy of the counters, as flushed to the diagnostics sink.
    pub fn counters_snapshot(&self) -> (c: RingCounters)
        ensures
            c == self.counters,
    {
        self.counters
    }
}

/// The consumer's state and the sequence numbers it emits after running
/// `lens.len()` faithful iterations: ones where the producer has published
/// exactly the expected record and does not touch it during the copy, the
/// payload of iteration `i` being `lens[i]` bytes.
pub open spec fn spec_run_faithful(c: RingConsumer, lens: Seq<u64>) -> (RingConsumer, Seq<u64>)
    decreases lens.len(),
{
    if lens.len() == 0 {
        (c, Seq::empty())
    } else {
        let stepped = c.spec_validate(c.expected_seq, lens[0]);
        let rest = spec_run_faithful(stepped.0, lens.drop_first());
        (rest.0, seq![c.expected_seq] + rest.1)
    }
}

/// The total payload bytes of a run.
pub open spec fn spec_sum(lens: Seq<u64>) -> int
    decreases lens.len(),
{
    if lens.len() == 0 {
        0
    } else {
        lens[0] + spec_sum(lens.drop_first())
    }
}

/// A sum of byte counts is never negative.
pub proof fn lemma_spec_sum_nonneg(lens: Seq<u64>)
    ensures
        spec_sum(lens) >= 0,
    decreases lens.len(),
{
    if lens.len() > 0 {
        lemma_spec_sum_nonneg(lens.drop_first());
    }
}

/// In-order delivery law: a consumer expecting sequence `k`, facing a
/// producer that publishes each expected record and never wraps past it,
/// emits exactly the sequences `k, k+1, ...` in order — one per message,
/// nothing skipped, nothing reordered — while both overrun counters stay
/// unchanged, `published` grows by exactly the number of messages, and
/// `published_bytes` by exactly the total payload bytes.
pub proof fn lemma_in_order_delivery(c: RingConsumer, lens: Seq<u64>)
    requires
        c.expected_seq + lens.len() <= u64::MAX,
        c.counters.published + lens.len() <= u64::MAX,
        c.counters.published_bytes + spec_sum(lens) <= u64::MAX,
    ensures
        ({
            let (cf, delivered) = spec_run_faithful(c, lens);
            &&& delivered.len() == lens.len()
            &&& (forall|i: int| 0 <= i < lens.len() ==> delivered[i] == c.expected_seq + i)
            &&& cf.expected_seq == c.expected_seq + lens.len()
            &&& cf.counters.published == c.counters.published + lens.len()
            &&& cf.counters.published_bytes == c.counters.published_bytes + spec_sum(lens)
            &&& cf.counters.overrun_while_polling == c.counters.overrun_while_polling
            &&& cf.counters.overrun_while_copying == c.counters.overrun_while_copying
            &&& cf.depth == c.depth
        }),
    decreases lens.len(),
{
    if lens.len() > 0 {
        lemma_spec_sum_nonneg(lens.drop_first());
        let stepped = c.spec_validate(c.expected_seq, lens[0]);
        lemma_in_order_delivery(stepped.0, lens.drop_first());
        let (cf, delivered) = spec_run_faithful(c, lens);
        let rest = spec_run_faithful(stepped.0, lens.drop_first());
        assert forall|i: int| 0 <= i < lens.len() implies delivered[i] == c.expected_seq + i by {
            if i > 0 {
                assert(delivered[i] == rest.1[i - 1]);
            }
        }
    }
}

/// Overrun adoption law: when the poll observes a sequence ahead of the
/// expected one, the consumer adopts exactly the observed sequence — the
/// producer's latest published one, never an intermediate value — and
/// `overrun_while_polling` grows by exactly 1 per such event.
pub proof fn lemma_overrun_adoption(c: RingConsumer, seq_found: u64)
    requires
        seq_found > c.expected_seq,
        c.counters.overrun_while_polling < u64::MAX,
    ensures
        ({
            let (c2, r) = c.spec_poll(seq_found);
            &&& r == PollOutcome::Proceed
            &&& c2.expected_seq == seq_found
            &&& c2.counters.overrun_while_polling == c.counters.overrun_while_polling + 1
            &&& c2.counters.published == c.counters.published
            &&& c2.counters.published_bytes == c.counters.published_bytes
            &&& c2.counters.overrun_while_copying == c.counters.overrun_while_copying
            &&& c2.depth == c.depth
        }),
{
}

/// No stale emission law: a payload is only ever delivered for exactly the
/// sequence number the consumer currently expects, so after an overrun
/// adoption nothing older than the adopted sequence can be emitted.
pub proof fn lemma_no_stale_delivery(c: RingConsumer, seq_found: u64, payload_len: u64)
    ensures
        ({
            let (c2, r) = c.spec_validate(seq_found, payload_len);
            r == CopyOutcome::Deliver ==> seq_found == c.expected_seq
        }),
{
}

/// The housekeeping period derived from the ring depth, in nanoseconds:
/// half the depth, clamped to [1, 1_000_000_000].
pub open spec fn spec_default_interval_ns(depth: u64) -> i64 {
    if depth / 2 < 1 {
        1
    } else if depth / 2 > 1_000_000_000 {
        1_000_000_000
    } else {
        (depth / 2) as i64
    }
}

/// The tuned housekeeping period for a ring of the given depth.
pub fn default_housekeeping_interval_ns(depth: u64) -> (r: i64)
    ensures
        r == spec_default_interval_ns(depth),
        1 <= r <= 1_000_000_000,
{
    let half = depth / 2;
    if half < 1 {
        1
    } else if half > 1_000_000_000 {
        1_000_000_000
    } else {
        half as i64
    }
}

/// Relies on `rand::Rng::gen_range` on `rand::thread_rng`: a draw from the
/// inclusive range, which panics only when the range is empty.
#[verifier::external_body]
fn jitter_between(lo: i64, hi: i64) -> (r: i64)
    requires
        lo <= hi,
    ensures
        lo <= r <= hi,
{
    let mut rng = rand::thread_rng();
    rng.gen_range(lo..=hi)
}

/// Relies on `chrono::Utc::now` and `DateTime::timestamp_nanos_opt`: the
/// clock's nanoseconds since the Unix epoch, or `None` when the moment is
/// outside the range an `i64` of nanoseconds can hold.  `Utc::now` itself
/// panics on a host clock set before the epoch — an environmental state
/// that no condition on arguments can exclude.
#[verifier::external_body]
fn now_timestamp_ns() -> (r: Option<i64>) {
    chrono::Utc::now().timestamp_nanos_opt()
}

/// The next housekeeping deadline: a randomized jitter in
/// `[interval, 2 * interval]` past `now`, so that consumers do not flush in
/// lock step (saturating at the far end of time).
pub fn plan_next_housekeeping(now_ns: i64, interval_ns: i64) -> (r: i64)
    requires
        1 <= interval_ns <= 1_000_000_000,
    ensures
        now_ns <= i64::MAX - 2 * interval_ns ==> now_ns + interval_ns <= r <= now_ns + 2
            * interval_ns,
        now_ns > i64::MAX - 2 * interval_ns ==> r == i64::MAX,
{
    if now_ns > i64::MAX - 2 * interval_ns {
        i64::MAX
    } else {
        let j = jitter_between(interval_ns, 2 * interval_ns);
        now_ns + j
    }
}

/// Read the clock and decide whether the periodic counter flush is due.
/// Returns `(now, due, next)`: the observed time (the far end of time when
/// the clock is out of range), whether the caller should flush now, and the
/// deadline for the following flush — unchanged when not due, else jittered
/// as `plan_next_housekeeping` says.
pub fn housekeeping_tick(next_ns: i64, interval_ns: i64) -> (r: (i64, bool, i64))
    requires
        1 <= interval_ns <= 1_000_000_000,
    ensures
        r.1 == (r.0 >= next_ns),
        !r.1 ==> r.2 == next_ns,
        r.1 && r.0 <= i64::MAX - 2 * interval_ns ==> r.0 + interval_ns <= r.2 <= r.0 + 2
            * interval_ns,
        r.1 && r.0 > i64::MAX - 2 * interval_ns ==> r.2 == i64::MAX,
{
    let now = match now_timestamp_ns() {
        Some(t) => t,
        None => i64::MAX,
    };
    if now >= next_ns {
        let nn = plan_next_housekeeping(now, interval_ns);
        (now, true, nn)
    } else {
        (now, false, next_ns)
    }
}

} // verus!
