use weact_blinky::signal::{AwaitableCondition, InterruptSignal, RCC_INTERRUPT_LINE};

#[test]
fn pending_until_flag_set() {
    let mut cond = AwaitableCondition::attach(InterruptSignal::bind(RCC_INTERRUPT_LINE));
    assert!(!cond.is_resolved());
    let out = cond.fire(false);
    assert!(!out.resolved_now);
    assert!(!out.clear_flag);
    assert!(!cond.is_resolved());
}

#[test]
fn resolves_on_flag_and_acknowledges() {
    let mut cond = AwaitableCondition::attach(InterruptSignal::bind(RCC_INTERRUPT_LINE));
    let out = cond.fire(true);
    assert!(out.resolved_now);
    assert!(out.clear_flag);
    assert!(cond.is_resolved());
}

#[test]
fn resolves_exactly_once_under_repeated_firings() {
    let mut cond = AwaitableCondition::attach(InterruptSignal::bind(RCC_INTERRUPT_LINE));
    let first = cond.fire(true);
    assert!(first.resolved_now);
    // The interrupt keeps firing after resolution: the already-resolved
    // state is idempotent and never resolves or acknowledges again.
    for round in 0..10 {
        let out = cond.fire(round % 2 == 0);
        assert!(!out.resolved_now);
        assert!(!out.clear_flag);
        assert!(cond.is_resolved());
    }
}

#[test]
fn independent_conditions_do_not_interfere() {
    let mut osc = AwaitableCondition::attach(InterruptSignal::bind(RCC_INTERRUPT_LINE));
    let mut pll = AwaitableCondition::attach(InterruptSignal::bind(RCC_INTERRUPT_LINE));
    let out = osc.fire(true);
    assert!(out.resolved_now);
    assert!(osc.is_resolved());
    assert!(!pll.is_resolved());
    let out = pll.fire(true);
    assert!(out.resolved_now);
    assert!(pll.is_resolved());
}

#[test]
fn attachment_keeps_the_line() {
    let cond = AwaitableCondition::attach(InterruptSignal::bind(RCC_INTERRUPT_LINE));
    assert_eq!(cond.signal.line, RCC_INTERRUPT_LINE);
}

#[test]
fn synchronous_poll_catches_already_set_flag() {
    // The flag was already set when the condition was attached: the
    // synchronous pre-poll resolves it without waiting for a firing.
    let (cond, out) = AwaitableCondition::attach_polled(InterruptSignal::bind(RCC_INTERRUPT_LINE), true);
    assert!(out.resolved_now);
    assert!(out.clear_flag);
    assert!(cond.is_resolved());

    let (cond, out) = AwaitableCondition::attach_polled(InterruptSignal::bind(RCC_INTERRUPT_LINE), false);
    assert!(!out.resolved_now);
    assert!(!cond.is_resolved());
}
