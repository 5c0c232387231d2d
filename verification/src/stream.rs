//! Repeating interrupt-driven tick source.
//!
//! Each firing of the bound interrupt adds one tick to a pending
//! accumulator; a reader drains the accumulator as a single batch. If the
//! accumulator would overflow between reads, the stream reports the overflow
//! exactly once and then ends: ticks are never reordered, duplicated or
//! silently dropped across the read boundary.

use vstd::prelude::*;
use crate::signal::InterruptSignal;

verus! {

/// An error returned when a receiver has missed too many ticks.
#[derive(Clone, Copy, Debug, PartialEq, Eq, Structural)]
pub struct TickOverflow;

/// What one read of a [`TickStream`] yields.
#[derive(Clone, Copy, Debug, PartialEq, Eq, Structural)]
pub enum TickRead {
    /// No tick has fired since the last read: the reader suspends.
    Pending,
    /// All ticks accumulated since the last read, as one batch.
    Batch(u16),
    /// The accumulator overflowed between reads; reported exactly once.
    Overflow,
    /// The stream has ended (only ever after an overflow was reported).
    Ended,
}

/// A repeating asynchronous tick sequence bound to one interrupt line.
pub struct TickStream {
    /// Ticks accumulated since the last read.
    pub pending: u16,
    /// The accumulator would have overflowed; the next read reports it.
    pub overflowed: bool,
    /// The overflow has been reported; no further items are produced.
    pub ended: bool,
    /// The interrupt line whose firings feed this stream, owned exclusively
    /// for the stream's lifetime.
    pub signal: InterruptSignal,
}

/// A freshly attached stream: nothing accumulated, nothing wrong.
pub open spec fn is_fresh(s: TickStream) -> bool {
    s.pending == 0 && !s.overflowed && !s.ended
}

/// The state after one interrupt firing: one more pending tick, unless the
/// accumulator is already full (then the overflow is recorded) or the stream
/// has already overflowed or ended (then the firing changes nothing).
pub open spec fn stream_fire_step(s: TickStream) -> TickStream {
    if s.ended || s.overflowed {
        s
    } else if s.pending == u16::MAX {
        TickStream { overflowed: true, ..s }
    } else {
        TickStream { pending: (s.pending + 1) as u16, ..s }
    }
}

/// The state after `n` consecutive firings.
pub open spec fn stream_fires(s: TickStream, n: nat) -> TickStream
    decreases n,
{
    if n == 0 {
        s
    } else {
        stream_fires(stream_fire_step(s), (n - 1) as nat)
    }
}

/// One read: the state afterwards and the item yielded. An ended stream
/// yields nothing more; a recorded overflow is reported and ends the stream;
/// otherwise the accumulated batch is drained, or the reader is left pending.
pub open spec fn stream_read_step(s: TickStream) -> (TickStream, TickRead) {
    if s.ended {
        (s, TickRead::Ended)
    } else if s.overflowed {
        (TickStream { pending: 0, overflowed: false, ended: true, ..s }, TickRead::Overflow)
    } else if s.pending > 0 {
        (TickStream { pending: 0, ..s }, TickRead::Batch(s.pending))
    } else {
        (s, TickRead::Pending)
    }
}

impl TickStream {
    /// Attaches a fresh stream to an interrupt line, consuming the line's
    /// signal. Configuring and enabling the timer that drives the line is
    /// the caller's concern.
    pub fn new(signal: InterruptSignal) -> (s: Self)
        ensures
            is_fresh(s),
            s.signal == signal,
    {
        TickStream { pending: 0, overflowed: false, ended: false, signal }
    }

    /// One firing of the bound interrupt, run in interrupt context: adds one
    /// tick, or records the overflow if the accumulator is full.
    pub fn fire(&mut self)
        ensures
            *final(self) == stream_fire_step(*old(self)),
    {
        if self.ended || self.overflowed {
        } else if self.pending == u16::MAX {
            self.overflowed = true;
        } else {
            self.pending = self.pending + 1;
        }
    }

    /// One read by the consuming task: drains the batch accumulated since
    /// the last read, or reports the overflow, or leaves the reader pending.
    pub fn read(&mut self) -> (item: TickRead)
        ensures
            *final(self) == stream_read_step(*old(self)).0,
            item == stream_read_step(*old(self)).1,
    {
        if self.ended {
            TickRead::Ended
        } else if self.overflowed {
            self.pending = 0;
            self.overflowed = false;
            self.ended = true;
            TickRead::Overflow
        } else if self.pending > 0 {
            let batch = self.pending;
            self.pending = 0;
            TickRead::Batch(batch)
        } else {
            TickRead::Pending
        }
    }
}

/// Firing splits: `a + b` consecutive firings are `a` firings followed by
/// `b` firings.
pub proof fn lemma_fires_add(s: TickStream, a: nat, b: nat)
    ensures
        stream_fires(s, a + b) == stream_fires(stream_fires(s, a), b),
    decreases a,
{
    if a > 0 {
        lemma_fires_add(stream_fire_step(s), (a - 1) as nat, b);
    }
}

/// As long as the accumulator has room, `n` firings accumulate exactly `n`
/// ticks: none is lost, duplicated or reordered.
pub proof fn lemma_fires_accumulate(s: TickStream, n: nat)
    requires
        !s.overflowed,
        !s.ended,
        s.pending + n <= u16::MAX,
    ensures
        stream_fires(s, n) == (TickStream { pending: (s.pending + n) as u16, ..s }),
    decreases n,
{
    if n > 0 {
        lemma_fires_accumulate(stream_fire_step(s), (n - 1) as nat);
    }
}

/// Once the overflow is recorded, or the stream has ended, further firings
/// change nothing.
pub proof fn lemma_saturated_fires_stall(s: TickStream, n: nat)
    requires
        s.overflowed || s.ended,
    ensures
        stream_fires(s, n) == s,
    decreases n,
{
    if n > 0 {
        lemma_saturated_fires_stall(s, (n - 1) as nat);
    }
}

/// `n` consecutive firings of a fresh stream, with no read in between, yield
/// a single batch of count `n` on the next read, and leave the stream fresh
/// again.
pub proof fn lemma_batched_ticks(s: TickStream, n: nat)
    requires
        is_fresh(s),
        1 <= n <= u16::MAX,
    ensures
        stream_read_step(stream_fires(s, n)).1 == TickRead::Batch(n as u16),
        is_fresh(stream_read_step(stream_fires(s, n)).0),
        stream_read_step(stream_fires(s, n)).0.signal == s.signal,
{
    lemma_fires_accumulate(s, n);
}

/// If more firings than the accumulator's maximum occur before a read, the
/// next read yields the overflow error exactly once, and no further items
/// are ever produced: whatever fires afterwards, every later read yields
/// `Ended`.
pub proof fn lemma_overflow_reported_once(s: TickStream, n: nat, k: nat)
    requires
        is_fresh(s),
        n > u16::MAX,
    ensures
        stream_read_step(stream_fires(s, n)).1 == TickRead::Overflow,
        stream_read_step(
            stream_fires(stream_read_step(stream_fires(s, n)).0, k),
        ).1 == TickRead::Ended,
{
    let full = stream_fires(s, u16::MAX as nat);
    lemma_fires_accumulate(s, u16::MAX as nat);
    lemma_fires_add(s, u16::MAX as nat, (n - u16::MAX) as nat);
    let saturated = stream_fire_step(full);
    assert(stream_fires(full, (n - u16::MAX) as nat) == stream_fires(
        saturated,
        (n - u16::MAX - 1) as nat,
    ));
    lemma_saturated_fires_stall(saturated, (n - u16::MAX - 1) as nat);
    let ended = stream_read_step(saturated).0;
    lemma_saturated_fires_stall(ended, k);
}

} // verus!
