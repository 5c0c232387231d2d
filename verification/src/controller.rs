//! The clock-raising state machine.
//!
//! Moves the core clock from the internal oscillator to the PLL-derived high
//! frequency through a fixed sequence of register writes, hardware-readiness
//! waits, and read-back checks. Each method returns the values the caller
//! must write to the memory-mapped registers, or takes the value it read
//! back; the caller suspends on an [`crate::signal::AwaitableCondition`]
//! between the steps that wait for hardware readiness. A failed read-back
//! check is fatal by design: there is no supervisor to retry for, and
//! running at the raised frequency with unverified settings risks incorrect
//! memory reads.

use vstd::prelude::*;
use crate::clock::{ClockConfig, spec_core_frequency, core_frequency};

verus! {

/// Maximum-performance setting of the power voltage-scaling field.
pub const VOLTAGE_SCALE_MAX_PERFORMANCE: u32 = 3;

/// Value of the system-clock switch field that selects the PLL.
pub const SWITCH_SOURCE_PLL: u32 = 2;

/// Value the system-clock switch status field reports once the PLL is the
/// system clock source.
pub const SWITCH_STATUS_PLL: u32 = 2;

/// Position of the controller in its fixed sequence.
#[derive(Clone, Copy, Debug, PartialEq, Eq, Structural)]
pub enum ClockState {
    /// Nothing done yet.
    Idle,
    /// Power interface set up, oscillator enabled; waiting for it to settle.
    AwaitingOscillator,
    /// PLL factors written, PLL enabled; waiting for it to lock.
    ConfiguringPll,
    /// Flash wait states written; the read-back check is outstanding.
    RaisingLatency,
    /// Prescalers written and PLL selected; the status check is outstanding.
    SwitchingSource,
    /// The PLL drives the core clock at the configured frequency.
    Stable,
    /// A read-back check failed; the sequence must not continue.
    Failed,
}

/// A fatal verification failure: a committed register write did not read
/// back as expected.
#[derive(Clone, Copy, Debug, PartialEq, Eq, Structural)]
pub enum FatalError {
    /// The flash latency field did not read back as the written value.
    LatencyMismatch,
    /// The switch status field did not report the PLL as clock source.
    SwitchStatusMismatch,
}

/// Register writes that start the sequence: power up the power interface,
/// raise the voltage scale, and start the external oscillator with its
/// ready interrupt.
#[derive(Clone, Copy, Debug, PartialEq, Eq, Structural)]
pub struct PowerWrites {
    /// Enable the power-interface clock gate.
    pub enable_power_clock: bool,
    /// Value for the voltage-scaling field.
    pub voltage_scale: u32,
    /// Enable the external oscillator.
    pub enable_oscillator: bool,
    /// Enable the oscillator-ready interrupt.
    pub enable_oscillator_ready_interrupt: bool,
}

/// Register writes that configure and start the PLL.
#[derive(Clone, Copy, Debug, PartialEq, Eq, Structural)]
pub struct PllWrites {
    /// Select the external oscillator as PLL source.
    pub source_hse: bool,
    /// Division factor for the PLL input clock.
    pub pllm: u32,
    /// Multiplication factor for the VCO.
    pub plln: u32,
    /// Encoded division factor for the system clock.
    pub pllp: u32,
    /// Division factor for the USB/SDIO clocks.
    pub pllq: u32,
    /// Enable the PLL.
    pub enable_pll: bool,
    /// Enable the PLL-ready interrupt.
    pub enable_pll_ready_interrupt: bool,
}

/// Register writes that set the bus prescalers and select the PLL as the
/// system clock source.
#[derive(Clone, Copy, Debug, PartialEq, Eq, Structural)]
pub struct SwitchWrites {
    /// AHB bus prescaler.
    pub ahb_prescaler: u32,
    /// APB1 bus prescaler.
    pub apb1_prescaler: u32,
    /// APB2 bus prescaler.
    pub apb2_prescaler: u32,
    /// Value for the system-clock switch field.
    pub switch_source: u32,
}

/// One externally observable input to the state machine: either a step the
/// driver takes, or a value it read back from a register.
#[derive(Clone, Copy, Debug, PartialEq, Eq, Structural)]
pub enum ClockEvent {
    /// The sequence was started.
    Started,
    /// The oscillator-ready condition resolved.
    OscillatorReady,
    /// The PLL-ready condition resolved.
    PllReady,
    /// The flash latency field read back with this value.
    LatencyReadback(u32),
    /// The switch status field read back with this value.
    SwitchReadback(u32),
}

/// The state transition: events taken out of order change nothing; the two
/// read-back events commit the sequence forward only when the read value is
/// exactly the expected one, and fail it terminally otherwise.
pub open spec fn clock_step(state: ClockState, cfg: ClockConfig, ev: ClockEvent) -> ClockState {
    match (state, ev) {
        (ClockState::Idle, ClockEvent::Started) => ClockState::AwaitingOscillator,
        (ClockState::AwaitingOscillator, ClockEvent::OscillatorReady) => ClockState::ConfiguringPll,
        (ClockState::ConfiguringPll, ClockEvent::PllReady) => ClockState::RaisingLatency,
        (ClockState::RaisingLatency, ClockEvent::LatencyReadback(v)) => if v == cfg.flash_latency {
            ClockState::SwitchingSource
        } else {
            ClockState::Failed
        },
        (ClockState::SwitchingSource, ClockEvent::SwitchReadback(v)) => if v == SWITCH_STATUS_PLL {
            ClockState::Stable
        } else {
            ClockState::Failed
        },
        _ => state,
    }
}

/// The state after a whole event sequence.
pub open spec fn clock_run(state: ClockState, cfg: ClockConfig, evs: Seq<ClockEvent>) -> ClockState
    decreases evs.len(),
{
    if evs.len() == 0 {
        state
    } else {
        clock_run(clock_step(state, cfg, evs[0]), cfg, evs.drop_first())
    }
}

/// Orchestrates the clock-raising sequence over a fixed configuration.
pub struct ClockController {
    pub state: ClockState,
    pub config: ClockConfig,
}

impl ClockController {
    /// A controller at the start of the sequence.
    pub fn init(config: ClockConfig) -> (c: Self)
        requires
            config.wf(),
        ensures
            c.state is Idle,
            c.config == config,
    {
        ClockController { state: ClockState::Idle, config }
    }

    /// Starts the sequence: the caller performs the returned writes, then
    /// attaches a condition on the oscillator-ready flag and suspends.
    pub fn start(&mut self) -> (w: PowerWrites)
        requires
            old(self).state is Idle,
        ensures
            final(self).state == clock_step(old(self).state, old(self).config, ClockEvent::Started),
            final(self).config == old(self).config,
            w == (PowerWrites {
                enable_power_clock: true,
                voltage_scale: VOLTAGE_SCALE_MAX_PERFORMANCE,
                enable_oscillator: true,
                enable_oscillator_ready_interrupt: true,
            }),
    {
        self.state = ClockState::AwaitingOscillator;
        PowerWrites {
            enable_power_clock: true,
            voltage_scale: VOLTAGE_SCALE_MAX_PERFORMANCE,
            enable_oscillator: true,
            enable_oscillator_ready_interrupt: true,
        }
    }

    /// The oscillator-ready condition resolved: the caller performs the
    /// returned PLL writes, attaches the second, independent condition on
    /// the PLL-ready flag, and suspends.
    pub fn oscillator_ready(&mut self) -> (w: PllWrites)
        requires
            old(self).state is AwaitingOscillator,
        ensures
            final(self).state == clock_step(
                old(self).state,
                old(self).config,
                ClockEvent::OscillatorReady,
            ),
            final(self).config == old(self).config,
            w == (PllWrites {
                source_hse: true,
                pllm: old(self).config.pllm,
                plln: old(self).config.plln,
                pllp: old(self).config.pllp,
                pllq: old(self).config.pllq,
                enable_pll: true,
                enable_pll_ready_interrupt: true,
            }),
    {
        self.state = ClockState::ConfiguringPll;
        PllWrites {
            source_hse: true,
            pllm: self.config.pllm,
            plln: self.config.plln,
            pllp: self.config.pllp,
            pllq: self.config.pllq,
            enable_pll: true,
            enable_pll_ready_interrupt: true,
        }
    }

    /// The PLL-ready condition resolved: the caller writes the returned
    /// flash wait-state count, reads the field back, and hands the value to
    /// [`Self::verify_latency`].
    pub fn pll_ready(&mut self) -> (latency: u32)
        requires
            old(self).state is ConfiguringPll,
        ensures
            final(self).state == clock_step(old(self).state, old(self).config, ClockEvent::PllReady),
            final(self).config == old(self).config,
            latency == old(self).config.flash_latency,
    {
        self.state = ClockState::RaisingLatency;
        self.config.flash_latency
    }

    /// The read-back check on the flash latency write. Only an exact match
    /// lets the sequence continue to the clock-source switch; any other
    /// value fails it terminally, so the source is never switched with
    /// unverified wait states.
    pub fn verify_latency(&mut self, readback: u32) -> (r: Result<SwitchWrites, FatalError>)
        requires
            old(self).state is RaisingLatency,
        ensures
            final(self).state == clock_step(
                old(self).state,
                old(self).config,
                ClockEvent::LatencyReadback(readback),
            ),
            final(self).config == old(self).config,
            readback == old(self).config.flash_latency <==> r is Ok,
            r is Ok ==> r == Ok::<SwitchWrites, FatalError>(SwitchWrites {
                ahb_prescaler: old(self).config.ahb_prescaler,
                apb1_prescaler: old(self).config.apb1_prescaler,
                apb2_prescaler: old(self).config.apb2_prescaler,
                switch_source: SWITCH_SOURCE_PLL,
            }),
            r is Err ==> r == Err::<SwitchWrites, FatalError>(FatalError::LatencyMismatch)
                && final(self).state is Failed,
    {
        if readback == self.config.flash_latency {
            self.state = ClockState::SwitchingSource;
            Ok(
                SwitchWrites {
                    ahb_prescaler: self.config.ahb_prescaler,
                    apb1_prescaler: self.config.apb1_prescaler,
                    apb2_prescaler: self.config.apb2_prescaler,
                    switch_source: SWITCH_SOURCE_PLL,
                },
            )
        } else {
            self.state = ClockState::Failed;
            Err(FatalError::LatencyMismatch)
        }
    }

    /// The read-back check on the clock-source switch. Only a status field
    /// that reports the PLL lets the sequence settle in `Stable`, where the
    /// returned value is the effective core frequency.
    pub fn verify_switch(&mut self, readback: u32) -> (r: Result<u32, FatalError>)
        requires
            old(self).state is SwitchingSource,
            old(self).config.wf(),
        ensures
            final(self).state == clock_step(
                old(self).state,
                old(self).config,
                ClockEvent::SwitchReadback(readback),
            ),
            final(self).config == old(self).config,
            readback == SWITCH_STATUS_PLL <==> r is Ok,
            r is Ok ==> r == Ok::<u32, FatalError>(
                spec_core_frequency(old(self).config) as u32,
            ),
            r is Err ==> r == Err::<u32, FatalError>(FatalError::SwitchStatusMismatch)
                && final(self).state is Failed,
    {
        if readback == SWITCH_STATUS_PLL {
            self.state = ClockState::Stable;
            Ok(core_frequency(&self.config))
        } else {
            self.state = ClockState::Failed;
            Err(FatalError::SwitchStatusMismatch)
        }
    }

    /// The effective core frequency of a stable controller.
    pub fn frequency(&self) -> (freq: u32)
        requires
            self.state is Stable,
            self.config.wf(),
        ensures
            freq == spec_core_frequency(self.config),
    {
        core_frequency(&self.config)
    }
}

/// States from which the latency check has not yet passed.
pub open spec fn latency_unverified(state: ClockState) -> bool {
    match state {
        ClockState::Idle => true,
        ClockState::AwaitingOscillator => true,
        ClockState::ConfiguringPll => true,
        ClockState::RaisingLatency => true,
        ClockState::Failed => true,
        ClockState::SwitchingSource => false,
        ClockState::Stable => false,
    }
}

/// A failed controller stays failed: no later event resumes the sequence.
pub proof fn lemma_failed_is_terminal(cfg: ClockConfig, evs: Seq<ClockEvent>)
    ensures
        clock_run(ClockState::Failed, cfg, evs) == ClockState::Failed,
    decreases evs.len(),
{
    if evs.len() > 0 {
        lemma_failed_is_terminal(cfg, evs.drop_first());
    }
}

/// With every readiness signal delivered and every read-back reporting
/// exactly the written value, the sequence reaches `Stable`: the controller
/// owes success whenever the hardware behaves.
pub proof fn lemma_nominal_sequence_stabilizes(cfg: ClockConfig)
    ensures
        clock_run(
            ClockState::Idle,
            cfg,
            seq![
                ClockEvent::Started,
                ClockEvent::OscillatorReady,
                ClockEvent::PllReady,
                ClockEvent::LatencyReadback(cfg.flash_latency),
                ClockEvent::SwitchReadback(SWITCH_STATUS_PLL),
            ],
        ) == ClockState::Stable,
{
    let evs = seq![
        ClockEvent::Started,
        ClockEvent::OscillatorReady,
        ClockEvent::PllReady,
        ClockEvent::LatencyReadback(cfg.flash_latency),
        ClockEvent::SwitchReadback(SWITCH_STATUS_PLL),
    ];
    assert(evs.drop_first() =~= evs.skip(1));
    assert(evs.skip(1).drop_first() =~= evs.skip(2));
    assert(evs.skip(2).drop_first() =~= evs.skip(3));
    assert(evs.skip(3).drop_first() =~= evs.skip(4));
    assert(evs.skip(4).drop_first() =~= evs.skip(5));
    assert(clock_run(ClockState::Stable, cfg, evs.skip(5)) == ClockState::Stable);
    assert(clock_run(ClockState::SwitchingSource, cfg, evs.skip(4)) == ClockState::Stable);
    assert(clock_run(ClockState::RaisingLatency, cfg, evs.skip(3)) == ClockState::Stable);
    assert(clock_run(ClockState::ConfiguringPll, cfg, evs.skip(2)) == ClockState::Stable);
    assert(clock_run(ClockState::AwaitingOscillator, cfg, evs.skip(1)) == ClockState::Stable);
}

/// The ordering guarantee of the fatal verification path: from any state in
/// which the latency check has not passed, no event sequence reaches the
/// clock-source switch (or stability) unless it contains a latency read-back
/// with exactly the expected value. A mismatched read-back fails the
/// sequence instead, before the source is ever switched.
pub proof fn lemma_no_switch_without_verified_latency(
    state: ClockState,
    cfg: ClockConfig,
    evs: Seq<ClockEvent>,
)
    requires
        latency_unverified(state),
        !latency_unverified(clock_run(state, cfg, evs)),
    ensures
        exists|i: int|
            0 <= i < evs.len() && evs[i] == ClockEvent::LatencyReadback(cfg.flash_latency),
    decreases evs.len(),
{
    let next = clock_step(state, cfg, evs[0]);
    if state is RaisingLatency && evs[0] == ClockEvent::LatencyReadback(cfg.flash_latency) {
        assert(evs[0] == ClockEvent::LatencyReadback(cfg.flash_latency));
    } else {
        lemma_no_switch_without_verified_latency(next, cfg, evs.drop_first());
        let j = choose|j: int|
            0 <= j < evs.drop_first().len() && evs.drop_first()[j] == ClockEvent::LatencyReadback(
                cfg.flash_latency,
            );
        assert(evs[j + 1] == ClockEvent::LatencyReadback(cfg.flash_latency));
    }
}

} // verus!
