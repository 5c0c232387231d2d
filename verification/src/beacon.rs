//! The periodic beacon task.
//!
//! Consumes a [`crate::stream::TickStream`] driven by a hardware
//! down-counter that fires eight times per second, keeps a phase counter in
//! `[0, 8)`, and for every single tick of a batch decides one output drive
//! (LED on at phases 0 and 2, off otherwise) and whether a full cycle just
//! started (phase 0). Batched ticks are replayed one by one, so the output
//! pattern survives a delayed reader.

use vstd::prelude::*;
use crate::clock::{ClockConfig, spec_tick_reference_frequency, tick_reference_frequency};
use crate::stream::{TickOverflow, TickRead};

verus! {

/// The phase counter wraps after this many ticks: one full cycle, one second.
pub const PHASE_MODULUS: u32 = 8;

/// A drive of the output capability.
#[derive(Clone, Copy, Debug, PartialEq, Eq, Structural)]
pub enum LedAction {
    On,
    Off,
}

/// What one tick of a batch asks the caller to do.
#[derive(Clone, Copy, Debug, PartialEq, Eq, Structural)]
pub struct BeaconStep {
    /// Drive for the output capability.
    pub led: LedAction,
    /// True exactly when a full cycle starts: emit the once-per-cycle
    /// notification.
    pub cycle_start: bool,
}

/// What the beacon does with one stream read.
#[derive(Debug, PartialEq, Eq)]
pub enum BeaconOutcome {
    /// No tick yet: suspend until the next interrupt firing.
    Waiting,
    /// Apply these steps in order, one per elapsed tick.
    Drive(Vec<BeaconStep>),
    /// The stream is over; the loop ends with this result.
    Finished(Result<(), TickOverflow>),
}

/// The drive decided at a phase: on at phases 0 and 2, off otherwise.
pub open spec fn led_at(phase: int) -> LedAction {
    if phase == 0 || phase == 2 {
        LedAction::On
    } else {
        LedAction::Off
    }
}

/// The step decided at a phase.
pub open spec fn step_at(phase: int) -> BeaconStep {
    BeaconStep { led: led_at(phase), cycle_start: phase == 0 }
}

/// Register writes that configure the down-counting hardware timer to fire
/// once per phase step.
#[derive(Clone, Copy, Debug, PartialEq, Eq, Structural)]
pub struct TimerWrites {
    /// Clear the current counter value before starting.
    pub clear_current: bool,
    /// Value loaded into the counter each time it reaches zero.
    pub reload: u32,
    /// Raise the timer interrupt when the counter reaches zero.
    pub enable_interrupt: bool,
    /// Start the counter in multi-shot mode.
    pub enable_counter: bool,
}

/// The beacon task's state: a phase counter cycling through `[0, 8)`,
/// advanced once per elapsed tick. A full cycle represents one second.
pub struct PeriodicBeacon {
    pub phase: u32,
}

impl PeriodicBeacon {
    /// The phase counter stays inside its cycle.
    pub open spec fn wf(self) -> bool {
        self.phase < PHASE_MODULUS
    }

    /// A beacon at the start of a cycle.
    pub fn init() -> (b: Self)
        ensures
            b.wf(),
            b.phase == 0,
    {
        PeriodicBeacon { phase: 0 }
    }

    /// The writes that configure the down-counting timer so that it fires
    /// once per phase step: reload set to the tick-reference frequency over
    /// the phase modulus, counter cleared, interrupt and counter enabled.
    pub fn timer_setup(cfg: &ClockConfig) -> (w: TimerWrites)
        requires
            cfg.wf(),
        ensures
            w.clear_current,
            w.reload == spec_tick_reference_frequency(*cfg) / (PHASE_MODULUS as int),
            w.enable_interrupt,
            w.enable_counter,
    {
        TimerWrites {
            clear_current: true,
            reload: tick_reference_frequency(cfg) / PHASE_MODULUS,
            enable_interrupt: true,
            enable_counter: true,
        }
    }

    /// Replays a batch of `count` elapsed ticks: one step per tick, each
    /// decided at the phase that tick occurs in, never coalesced, with the
    /// phase advanced once per tick.
    pub fn on_batch(&mut self, count: u16) -> (steps: Vec<BeaconStep>)
        requires
            old(self).wf(),
        ensures
            final(self).wf(),
            final(self).phase == (old(self).phase + count) % (PHASE_MODULUS as int),
            steps@.len() == count,
            forall|i: int|
                0 <= i < count ==> #[trigger] steps@[i] == step_at(
                    (old(self).phase + i) % (PHASE_MODULUS as int),
                ),
    {
        let mut steps: Vec<BeaconStep> = Vec::new();
        let mut done: u16 = 0;
        while done < count
            invariant
                self.wf(),
                done <= count,
                self.phase == (old(self).phase + done) % (PHASE_MODULUS as int),
                steps@.len() == done,
                forall|i: int|
                    0 <= i < done ==> #[trigger] steps@[i] == step_at(
                        (old(self).phase + i) % (PHASE_MODULUS as int),
                    ),
            decreases count - done,
        {
            let led = if self.phase == 0 || self.phase == 2 {
                LedAction::On
            } else {
                LedAction::Off
            };
            steps.push(BeaconStep { led, cycle_start: self.phase == 0 });
            proof {
                vstd::arithmetic::div_mod::lemma_add_mod_noop(
                    old(self).phase + done,
                    1,
                    PHASE_MODULUS as int,
                );
            }
            self.phase = (self.phase + 1) % PHASE_MODULUS;
            done = done + 1;
        }
        steps
    }

    /// Reacts to one stream read: suspends on a pending stream, replays a
    /// batch tick by tick, surfaces the overflow error, and ends cleanly on
    /// a stream that is already over.
    pub fn handle_read(&mut self, item: TickRead) -> (out: BeaconOutcome)
        requires
            old(self).wf(),
        ensures
            final(self).wf(),
            item is Pending ==> out == BeaconOutcome::Waiting && *final(self) == *old(self),
            item matches TickRead::Batch(n) ==> {
                &&& out matches BeaconOutcome::Drive(steps)
                &&& steps@.len() == n
                &&& forall|i: int|
                    0 <= i < n ==> #[trigger] steps@[i] == step_at(
                        (old(self).phase + i) % (PHASE_MODULUS as int),
                    )
                &&& final(self).phase == (old(self).phase + n) % (PHASE_MODULUS as int)
            },
            item is Overflow ==> out == BeaconOutcome::Finished(
                Err::<(), TickOverflow>(TickOverflow),
            ) && *final(self) == *old(self),
            item is Ended ==> out == BeaconOutcome::Finished(Ok::<(), TickOverflow>(()))
                && *final(self) == *old(self),
    {
        match item {
            TickRead::Pending => BeaconOutcome::Waiting,
            TickRead::Batch(n) => BeaconOutcome::Drive(self.on_batch(n)),
            TickRead::Overflow => BeaconOutcome::Finished(Err(TickOverflow)),
            TickRead::Ended => BeaconOutcome::Finished(Ok(())),
        }
    }
}

/// Over one full cycle of ticks, exactly one step is a cycle start, and the
/// phase returns to where it began.
pub proof fn lemma_one_notification_per_cycle(phase: int, i: int, j: int)
    requires
        0 <= phase < PHASE_MODULUS,
        0 <= i < PHASE_MODULUS,
        0 <= j < PHASE_MODULUS,
        step_at((phase + i) % (PHASE_MODULUS as int)).cycle_start,
        step_at((phase + j) % (PHASE_MODULUS as int)).cycle_start,
    ensures
        i == j,
        (phase + PHASE_MODULUS) % (PHASE_MODULUS as int) == phase,
{
}

} // verus!
