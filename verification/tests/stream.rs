use weact_blinky::signal::{InterruptSignal, SYS_TICK_EXCEPTION_LINE};
use weact_blinky::stream::{TickRead, TickStream};

fn batch_after_firings(n: u32) -> TickRead {
    let mut stream = TickStream::new(InterruptSignal::bind(SYS_TICK_EXCEPTION_LINE));
    for _ in 0..n {
        stream.fire();
    }
    stream.read()
}

#[test]
fn one_firing_one_batch() {
    assert_eq!(batch_after_firings(1), TickRead::Batch(1));
}

#[test]
fn five_firings_single_batch() {
    assert_eq!(batch_after_firings(5), TickRead::Batch(5));
}

#[test]
fn thousand_firings_single_batch() {
    assert_eq!(batch_after_firings(1000), TickRead::Batch(1000));
}

#[test]
fn read_without_firing_pends() {
    let mut stream = TickStream::new(InterruptSignal::bind(SYS_TICK_EXCEPTION_LINE));
    assert_eq!(stream.read(), TickRead::Pending);
}

#[test]
fn read_drains_accumulator() {
    let mut stream = TickStream::new(InterruptSignal::bind(SYS_TICK_EXCEPTION_LINE));
    stream.fire();
    stream.fire();
    assert_eq!(stream.read(), TickRead::Batch(2));
    assert_eq!(stream.read(), TickRead::Pending);
    stream.fire();
    assert_eq!(stream.read(), TickRead::Batch(1));
}

#[test]
fn overflow_reported_once_then_ended() {
    let max: u32 = u32::from(u16::MAX);
    let mut stream = TickStream::new(InterruptSignal::bind(SYS_TICK_EXCEPTION_LINE));
    for _ in 0..(max + 1) {
        stream.fire();
    }
    // One firing past the accumulator's maximum: the next read yields the
    // overflow error exactly once, and no further items are produced.
    assert_eq!(stream.read(), TickRead::Overflow);
    assert_eq!(stream.read(), TickRead::Ended);
    stream.fire();
    stream.fire();
    assert_eq!(stream.read(), TickRead::Ended);
}

#[test]
fn full_accumulator_without_overflow_still_batches() {
    let max: u32 = u32::from(u16::MAX);
    let mut stream = TickStream::new(InterruptSignal::bind(SYS_TICK_EXCEPTION_LINE));
    for _ in 0..max {
        stream.fire();
    }
    assert_eq!(stream.read(), TickRead::Batch(u16::MAX));
    assert_eq!(stream.read(), TickRead::Pending);
}
