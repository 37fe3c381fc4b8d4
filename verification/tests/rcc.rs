use wb_hal::rcc::AHBPrescaler;
use wb_hal::rcc::APBPrescaler;
use wb_hal::rcc::ClockSrc;
use wb_hal::rcc::Config;
use wb_hal::rcc::HDivider;
use wb_hal::rcc::HseDivider;
use wb_hal::rcc::MsiRange;
use wb_hal::rcc::PllConfig;
use wb_hal::rcc::PllSrc;
use wb_hal::rcc::Rcc;
use wb_hal::rcc::RccExt;
use wb_hal::rcc::RtcClkSrc;
use wb_hal::rcc::StopWakeupClock;
use wb_hal::rcc::flash_latency;
use wb_hal::rcc::HSE_FREQ;
use wb_hal::rcc::HSI_FREQ;
use wb_hal::rcc::LSE_FREQ;

#[test]
fn hdivider_divisors() {
    assert_eq!(HDivider::NotDivided.divisor(), 1);
    assert_eq!(HDivider::Div2.divisor(), 2);
    assert_eq!(HDivider::Div3.divisor(), 3);
    assert_eq!(HDivider::Div4.divisor(), 4);
    assert_eq!(HDivider::Div5.divisor(), 5);
    assert_eq!(HDivider::Div6.divisor(), 6);
    assert_eq!(HDivider::Div8.divisor(), 8);
    assert_eq!(HDivider::Div10.divisor(), 10);
    assert_eq!(HDivider::Div16.divisor(), 16);
    assert_eq!(HDivider::Div32.divisor(), 32);
    assert_eq!(HDivider::Div64.divisor(), 64);
    assert_eq!(HDivider::Div128.divisor(), 128);
    assert_eq!(HDivider::Div256.divisor(), 256);
    assert_eq!(HDivider::Div512.divisor(), 512);
}

#[test]
fn hdivider_encodings() {
    assert_eq!(HDivider::NotDivided.bits(), 0b0000);
    assert_eq!(HDivider::Div2.bits(), 0b1000);
    assert_eq!(HDivider::Div3.bits(), 0b0001);
    assert_eq!(HDivider::Div10.bits(), 0b0110);
    assert_eq!(HDivider::Div512.bits(), 0b1111);
}

#[test]
fn ahb_prescaler_encodings_and_divisors() {
    assert_eq!(AHBPrescaler::NotDivided.bits(), 0x01);
    assert_eq!(AHBPrescaler::Div2.bits(), 0x08);
    assert_eq!(AHBPrescaler::Div3.bits(), 0x01);
    assert_eq!(AHBPrescaler::Div16.bits(), 0x0b);
    assert_eq!(AHBPrescaler::Div512.bits(), 0x0f);
    assert_eq!(AHBPrescaler::Div10.divisor(), 10);
    assert_eq!(AHBPrescaler::Div512.divisor(), 512);
}

#[test]
fn apb_prescaler_encodings_and_divisors() {
    assert_eq!(APBPrescaler::NotDivided.bits(), 1);
    assert_eq!(APBPrescaler::Div2.bits(), 0x04);
    assert_eq!(APBPrescaler::Div4.bits(), 0x05);
    assert_eq!(APBPrescaler::Div8.bits(), 0x06);
    assert_eq!(APBPrescaler::Div16.bits(), 0x07);
    assert_eq!(APBPrescaler::Div16.divisor(), 16);
}

#[test]
fn msi_range_and_rtc_source_encodings() {
    assert_eq!(MsiRange::Range100K.bits(), 0);
    assert_eq!(MsiRange::Range1M.bits(), 4);
    assert_eq!(MsiRange::Range48M.bits(), 11);
    assert_eq!(RtcClkSrc::NoClock.bits(), 0b00);
    assert_eq!(RtcClkSrc::Lse.bits(), 0b01);
    assert_eq!(RtcClkSrc::Lsi.bits(), 0b10);
    assert_eq!(RtcClkSrc::HseDiv32.bits(), 0b11);
}

#[test]
fn default_pll_config() {
    let p = PllConfig::default();
    assert_eq!(p.m, 1);
    assert_eq!(p.n, 8);
    assert_eq!(p.r, 2);
    assert_eq!(p.q, None);
    assert_eq!(p.p, None);
}

#[test]
fn default_config_runs_undivided_from_hsi() {
    let c = Config::default();
    assert!(matches!(c.mux, ClockSrc::HSI16));
    assert!(matches!(c.cpu1_hdiv, HDivider::NotDivided));
    assert!(matches!(c.cpu2_hdiv, HDivider::NotDivided));
    assert!(matches!(c.ahb_pre, AHBPrescaler::NotDivided));
    assert!(matches!(c.apb1_pre, APBPrescaler::NotDivided));
    assert!(matches!(c.apb2_pre, APBPrescaler::NotDivided));
    assert!(matches!(c.stop_wakeup_clk, StopWakeupClock::MSI));
    assert!(!c.with_lse);
    assert!(matches!(c.rtc_src, RtcClkSrc::NoClock));
}

#[test]
fn builders_replace_their_field() {
    let c = Config::default()
        .clock_src(ClockSrc::HSE(HseDivider::Div2))
        .cpu1_hdiv(HDivider::Div2)
        .cpu2_hdiv(HDivider::Div4)
        .ahb_pre(AHBPrescaler::Div2)
        .apb1_pre(APBPrescaler::Div4)
        .apb2_pre(APBPrescaler::Div2)
        .stop_wakeup_clk(StopWakeupClock::HSI16)
        .with_lse(true)
        .rtc_src(RtcClkSrc::Lse)
        .pll_config(PllConfig { m: 2, n: 12, r: 4, q: None, p: Some(8) });
    assert!(matches!(c.mux, ClockSrc::HSE(HseDivider::Div2)));
    assert!(matches!(c.cpu1_hdiv, HDivider::Div2));
    assert!(matches!(c.cpu2_hdiv, HDivider::Div4));
    assert!(matches!(c.ahb_pre, AHBPrescaler::Div2));
    assert!(matches!(c.apb1_pre, APBPrescaler::Div4));
    assert!(matches!(c.apb2_pre, APBPrescaler::Div2));
    assert!(matches!(c.stop_wakeup_clk, StopWakeupClock::HSI16));
    assert!(c.with_lse);
    assert!(matches!(c.rtc_src, RtcClkSrc::Lse));
    assert_eq!(c.pll_config.m, 2);
    assert_eq!(c.pll_config.p, Some(8));
}

#[test]
fn freeze_default_gives_sixteen_megahertz_everywhere() {
    let clocks = Rcc::new().freeze(Config::default());
    assert_eq!(clocks.sys, HSI_FREQ);
    assert_eq!(clocks.ahb1, 16_000_000);
    assert_eq!(clocks.ahb2, 16_000_000);
    assert_eq!(clocks.ahb3, 16_000_000);
    assert_eq!(clocks.apb1, 16_000_000);
    assert_eq!(clocks.apb2, 16_000_000);
    assert_eq!(clocks.apb1_tim, 16_000_000);
    assert_eq!(clocks.apb2_tim, 16_000_000);
    assert_eq!(clocks.cpu_1, 16_000_000);
    assert_eq!(clocks.cpu_2, 16_000_000);
    assert_eq!(clocks.pll_clk, None);
    assert_eq!(clocks.pllp, None);
    assert_eq!(clocks.pllq, None);
    assert_eq!(clocks.lse, None);
}

#[test]
fn freeze_divided_hse_tree() {
    let config = Config::default()
        .clock_src(ClockSrc::HSE(HseDivider::Div2))
        .ahb_pre(AHBPrescaler::Div2)
        .apb1_pre(APBPrescaler::Div4)
        .cpu2_hdiv(HDivider::Div2);
    let clocks = Rcc::new().freeze(config);
    assert_eq!(clocks.sys, HSE_FREQ / 2); // 16 MHz
    assert_eq!(clocks.ahb1, 8_000_000);
    assert_eq!(clocks.apb1, 2_000_000);
    assert_eq!(clocks.apb1_tim, 4_000_000); // doubled on a divided bus
    assert_eq!(clocks.apb2, 8_000_000);
    assert_eq!(clocks.apb2_tim, 8_000_000); // undivided bus: not doubled
    assert_eq!(clocks.cpu_1, 16_000_000);
    assert_eq!(clocks.cpu_2, 8_000_000);
}

#[test]
fn freeze_pll_tree_with_all_outputs() {
    // 32 MHz input, /2 = 16 MHz, x8 = 128 MHz in the oscillator,
    // divided to 64, 32 and 16 MHz on the three outputs.
    let config = Config::default()
        .clock_src(ClockSrc::Pll(PllSrc::Hse(HseDivider::NotDivided)))
        .pll_config(PllConfig { m: 2, n: 8, r: 2, q: Some(8), p: Some(4) })
        .cpu2_hdiv(HDivider::Div2)
        .with_lse(true);
    let clocks = Rcc::new().freeze(config);
    assert_eq!(clocks.sys, 64_000_000);
    assert_eq!(clocks.pll_clk, Some(64_000_000));
    assert_eq!(clocks.pllp, Some(32_000_000));
    assert_eq!(clocks.pllq, Some(16_000_000));
    assert_eq!(clocks.ahb1, 64_000_000);
    assert_eq!(clocks.cpu_1, 64_000_000);
    assert_eq!(clocks.cpu_2, 32_000_000);
    assert_eq!(clocks.lse, Some(LSE_FREQ));
}

#[test]
fn freeze_pll_from_internal_oscillator() {
    // 16 MHz x 8 = 128 MHz, divided by 4 to 32 MHz.
    let config = Config::default()
        .clock_src(ClockSrc::Pll(PllSrc::Hsi))
        .pll_config(PllConfig { m: 1, n: 8, r: 4, q: None, p: None });
    let clocks = Rcc::new().freeze(config);
    assert_eq!(clocks.sys, 32_000_000);
    assert_eq!(clocks.pll_clk, Some(32_000_000));
    assert_eq!(clocks.pllp, None);
    assert_eq!(clocks.pllq, None);
}

#[test]
fn flash_latency_thresholds() {
    assert_eq!(flash_latency(16_000_000), 0);
    assert_eq!(flash_latency(18_000_000), 0);
    assert_eq!(flash_latency(18_000_001), 1);
    assert_eq!(flash_latency(36_000_000), 1);
    assert_eq!(flash_latency(36_000_001), 2);
    assert_eq!(flash_latency(54_000_000), 2);
    assert_eq!(flash_latency(54_000_001), 3);
    assert_eq!(flash_latency(64_000_000), 3);
}
