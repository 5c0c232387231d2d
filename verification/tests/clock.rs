use weact_blinky::clock::{
    core_frequency, tick_reference_frequency, ClockConfig, WeActSystemClock,
    TICK_REFERENCE_DIVIDER,
};

#[test]
fn weact_clock_factors() {
    let clk = WeActSystemClock::init();
    assert_eq!(clk.flash_latency(), 3);
    assert_eq!(clk.hse_freq(), 25_000_000);
    assert_eq!(clk.pllm(), 25);
    assert_eq!(clk.plln(), 192);
    assert_eq!(clk.pllp(), 2);
    assert_eq!(clk.pllq(), 4);
}

#[test]
fn weact_config_fields() {
    let cfg = WeActSystemClock::init().config();
    assert_eq!(cfg.hse_freq, 25_000_000);
    assert_eq!(cfg.pllm, 25);
    assert_eq!(cfg.plln, 192);
    assert_eq!(cfg.pllp, 0);
    assert_eq!(cfg.pllq, 4);
    assert_eq!(cfg.flash_latency, 3);
    assert_eq!(cfg.ahb_prescaler, 1);
    assert_eq!(cfg.apb1_prescaler, 2);
    assert_eq!(cfg.apb2_prescaler, 1);
}

#[test]
fn effective_frequency_weact() {
    // HSE = 25 MHz, PLLM = 25, PLLN = 192, PLLP field = 0 (divide by 2).
    let cfg = WeActSystemClock::init().config();
    assert_eq!(core_frequency(&cfg), 96_000_000);
}

#[test]
fn effective_frequency_formula_other_tuple() {
    // HSE = 8 MHz, PLLM = 4, PLLN = 100, PLLP field = 1 (divide by 4):
    // 8_000_000 / 4 * 100 / 4 = 50_000_000.
    let cfg = ClockConfig {
        hse_freq: 8_000_000,
        pllm: 4,
        plln: 100,
        pllp: 1,
        pllq: 4,
        flash_latency: 1,
        ahb_prescaler: 1,
        apb1_prescaler: 1,
        apb2_prescaler: 1,
    };
    assert_eq!(core_frequency(&cfg), 50_000_000);
}

#[test]
fn tick_reference_is_core_over_eight() {
    let cfg = WeActSystemClock::init().config();
    assert_eq!(TICK_REFERENCE_DIVIDER, 8);
    assert_eq!(tick_reference_frequency(&cfg), 12_000_000);
}
