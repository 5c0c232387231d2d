//! Clock configuration: the PLL factors, the frequencies derived from them,
//! and the board's concrete configuration.

use vstd::prelude::*;

verus! {

/// Fixed divider between the core clock and the timer reference clock.
pub const TICK_REFERENCE_DIVIDER: u32 = 8;

/// Immutable clock configuration: the external crystal frequency, the PLL
/// division/multiplication factors, the target flash wait-state count and the
/// target bus prescalers.
///
/// `pllp` is the encoded register field: the division factor applied to the
/// PLL output is `2 * (pllp + 1)`, so field value 0 divides by 2.
#[derive(Clone, Copy, Debug, PartialEq, Eq, Structural)]
pub struct ClockConfig {
    /// External high-speed crystal frequency, in hertz.
    pub hse_freq: u32,
    /// Division factor for the PLL input clock.
    pub pllm: u32,
    /// Multiplication factor for the PLL voltage-controlled oscillator.
    pub plln: u32,
    /// Encoded division factor for the main system clock (divider `2*(pllp+1)`).
    pub pllp: u32,
    /// Division factor for the USB/SDIO clocks.
    pub pllq: u32,
    /// Flash wait-state count required at the raised frequency.
    pub flash_latency: u32,
    /// AHB bus prescaler (plain divider value).
    pub ahb_prescaler: u32,
    /// APB1 bus prescaler (plain divider value).
    pub apb1_prescaler: u32,
    /// APB2 bus prescaler (plain divider value).
    pub apb2_prescaler: u32,
}

impl ClockConfig {
    /// A configuration is valid when every factor lies in the range its
    /// register field accepts and the PLL input clock lands in the 1..2 MHz
    /// band the PLL is specified for.
    pub open spec fn wf(self) -> bool {
        &&& 4_000_000 <= self.hse_freq <= 26_000_000
        &&& 2 <= self.pllm <= 63
        &&& 50 <= self.plln <= 432
        &&& self.pllp <= 3
        &&& 2 <= self.pllq <= 15
        &&& 1_000_000 <= self.hse_freq as int / self.pllm as int <= 2_000_000
    }
}

/// The effective core frequency a configuration yields once the PLL is the
/// system clock source: `hse_freq / pllm * plln / (2 * (pllp + 1))`.
pub open spec fn spec_core_frequency(cfg: ClockConfig) -> int {
    cfg.hse_freq as int / cfg.pllm as int * cfg.plln as int / (2 * (cfg.pllp as int + 1))
}

/// The tick-reference frequency: the core frequency through the fixed
/// divide-by-8 timer prescaler.
pub open spec fn spec_tick_reference_frequency(cfg: ClockConfig) -> int {
    spec_core_frequency(cfg) / (TICK_REFERENCE_DIVIDER as int)
}

/// Computes the effective core frequency of a valid configuration.
pub fn core_frequency(cfg: &ClockConfig) -> (freq: u32)
    requires
        cfg.wf(),
    ensures
        freq == spec_core_frequency(*cfg),
{
    let vco_input = cfg.hse_freq / cfg.pllm;
    assert(vco_input * cfg.plln <= 2_000_000 * 432) by (nonlinear_arith)
        requires
            vco_input <= 2_000_000,
            cfg.plln <= 432,
    ;
    let vco_output = vco_input * cfg.plln;
    vco_output / (2 * (cfg.pllp + 1))
}

/// Computes the tick-reference frequency of a valid configuration.
pub fn tick_reference_frequency(cfg: &ClockConfig) -> (freq: u32)
    requires
        cfg.wf(),
    ensures
        freq == spec_tick_reference_frequency(*cfg),
{
    let core = core_frequency(cfg);
    core / TICK_REFERENCE_DIVIDER
}

/// The clock configuration of the WeAct board: a 25 MHz crystal raised to a
/// 96 MHz core clock (VCO input 1 MHz, VCO output 192 MHz, divided by 2).
pub open spec fn spec_weact_config() -> ClockConfig {
    ClockConfig {
        hse_freq: 25_000_000,
        pllm: 25,
        plln: 192,
        pllp: 0,
        pllq: 4,
        flash_latency: 3,
        ahb_prescaler: 1,
        apb1_prescaler: 2,
        apb2_prescaler: 1,
    }
}

/// The system clock of the WeAct board.
pub struct WeActSystemClock {}

impl WeActSystemClock {
    pub fn init() -> (clk: Self) {
        WeActSystemClock {}
    }

    /// Flash wait-state count required at 96 MHz.
    pub fn flash_latency(&self) -> (r: u32)
        ensures
            r == spec_weact_config().flash_latency,
    {
        3
    }

    /// HSE crystal frequency.
    pub fn hse_freq(&self) -> (r: u32)
        ensures
            r == spec_weact_config().hse_freq,
    {
        25_000_000
    }

    /// PLLM - Division factor for the main PLL input clock.
    pub fn pllm(&self) -> (r: u32)
        ensures
            r == spec_weact_config().pllm,
    {
        25
    }

    /// PLLN - Main PLL multiplication factor for VCO.
    pub fn plln(&self) -> (r: u32)
        ensures
            r == spec_weact_config().plln,
    {
        192
    }

    /// PLLP - Main PLL division factor for the main system clock, as the
    /// plain divider value (the register field encodes it as `pllp/2 - 1`).
    pub fn pllp(&self) -> (r: u32)
        ensures
            r == 2 * (spec_weact_config().pllp + 1),
    {
        2
    }

    /// PLLQ - Main PLL division factor for USB OTG FS and SDIO clocks.
    pub fn pllq(&self) -> (r: u32)
        ensures
            r == spec_weact_config().pllq,
    {
        4
    }

    /// The full configuration these factors describe, valid by construction.
    pub fn config(&self) -> (cfg: ClockConfig)
        ensures
            cfg == spec_weact_config(),
            cfg.wf(),
    {
        ClockConfig {
            hse_freq: self.hse_freq(),
            pllm: self.pllm(),
            plln: self.plln(),
            pllp: self.pllp() / 2 - 1,
            pllq: self.pllq(),
            flash_latency: self.flash_latency(),
            ahb_prescaler: 1,
            apb1_prescaler: 2,
            apb2_prescaler: 1,
        }
    }
}

} // verus!
