use weact_blinky::beacon::{
    BeaconOutcome, BeaconStep, LedAction, PeriodicBeacon, PHASE_MODULUS,
};
use weact_blinky::clock::WeActSystemClock;
use weact_blinky::signal::{InterruptSignal, SYS_TICK_EXCEPTION_LINE};
use weact_blinky::stream::{TickOverflow, TickRead, TickStream};

#[test]
fn timer_setup_fires_every_eighth_second() {
    let cfg = WeActSystemClock::init().config();
    // 12 MHz tick reference, 8 phases per second: reload every 125 ms.
    let w = PeriodicBeacon::timer_setup(&cfg);
    assert_eq!(w.reload, 1_500_000);
    assert!(w.clear_current);
    assert!(w.enable_interrupt);
    assert!(w.enable_counter);
}

#[test]
fn full_cycle_pattern_from_phase_zero() {
    let mut beacon = PeriodicBeacon::init();
    let steps = beacon.on_batch(8);
    let leds: Vec<LedAction> = steps.iter().map(|s| s.led).collect();
    assert_eq!(
        leds,
        vec![
            LedAction::On,
            LedAction::Off,
            LedAction::On,
            LedAction::Off,
            LedAction::Off,
            LedAction::Off,
            LedAction::Off,
            LedAction::Off,
        ]
    );
    let notifications = steps.iter().filter(|s| s.cycle_start).count();
    assert_eq!(notifications, 1);
    assert!(steps[0].cycle_start);
    assert_eq!(beacon.phase, 0);
}

#[test]
fn batched_ticks_are_replayed_one_by_one() {
    // Two separate single ticks and one batch of two drive the same edges.
    let mut one_by_one = PeriodicBeacon::init();
    let mut first = one_by_one.on_batch(1);
    let second = one_by_one.on_batch(1);
    first.extend(second);

    let mut batched = PeriodicBeacon::init();
    let both = batched.on_batch(2);

    assert_eq!(first, both);
    assert_eq!(one_by_one.phase, batched.phase);
}

#[test]
fn phase_wraps_modulo_eight() {
    let mut beacon = PeriodicBeacon::init();
    let steps = beacon.on_batch(11);
    assert_eq!(steps.len(), 11);
    assert_eq!(beacon.phase, 11 % PHASE_MODULUS);
    assert_eq!(steps[8].led, LedAction::On);
    assert!(steps[8].cycle_start);
    assert_eq!(steps[10].led, LedAction::On);
    assert!(!steps[10].cycle_start);
}

#[test]
fn handle_read_pending_waits() {
    let mut beacon = PeriodicBeacon::init();
    assert_eq!(beacon.handle_read(TickRead::Pending), BeaconOutcome::Waiting);
    assert_eq!(beacon.phase, 0);
}

#[test]
fn handle_read_batch_drives() {
    let mut beacon = PeriodicBeacon::init();
    let out = beacon.handle_read(TickRead::Batch(3));
    let expected = vec![
        BeaconStep { led: LedAction::On, cycle_start: true },
        BeaconStep { led: LedAction::Off, cycle_start: false },
        BeaconStep { led: LedAction::On, cycle_start: false },
    ];
    assert_eq!(out, BeaconOutcome::Drive(expected));
    assert_eq!(beacon.phase, 3);
}

#[test]
fn handle_read_overflow_surfaces_error() {
    let mut beacon = PeriodicBeacon::init();
    let out = beacon.handle_read(TickRead::Overflow);
    assert_eq!(out, BeaconOutcome::Finished(Err(TickOverflow)));
}

#[test]
fn handle_read_ended_finishes_cleanly() {
    let mut beacon = PeriodicBeacon::init();
    let out = beacon.handle_read(TickRead::Ended);
    assert_eq!(out, BeaconOutcome::Finished(Ok(())));
}

#[test]
fn beacon_loop_over_a_real_stream() {
    let mut stream = TickStream::new(InterruptSignal::bind(SYS_TICK_EXCEPTION_LINE));
    let mut beacon = PeriodicBeacon::init();
    let mut driven: Vec<BeaconStep> = Vec::new();
    // Five interrupt firings arrive while the reader is busy, then three more.
    for _ in 0..5 {
        stream.fire();
    }
    match beacon.handle_read(stream.read()) {
        BeaconOutcome::Drive(steps) => driven.extend(steps),
        other => panic!("expected a batch, got {:?}", other),
    }
    for _ in 0..3 {
        stream.fire();
    }
    match beacon.handle_read(stream.read()) {
        BeaconOutcome::Drive(steps) => driven.extend(steps),
        other => panic!("expected a batch, got {:?}", other),
    }
    assert_eq!(driven.len(), 8);
    let notifications = driven.iter().filter(|s| s.cycle_start).count();
    assert_eq!(notifications, 1);
    assert_eq!(beacon.phase, 0);
}
