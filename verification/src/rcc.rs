//! Clock-tree configuration for the reset and clock control peripheral.
//!
//! Only the basic setups using the fixed-frequency internal and external
//! high-speed oscillators, and the main PLL fed from either, are
//! supported. `freeze` consumes the peripheral handle and computes every
//! derived frequency of the tree from the chosen configuration.

use vstd::prelude::*;

verus! {

/// Internal high-speed oscillator frequency in Hz.
pub const HSI_FREQ: u32 = 16_000_000;

/// External high-speed oscillator frequency in Hz, fixed on this device.
pub const HSE_FREQ: u32 = 32_000_000;

/// Highest frequency the PLL outputs may reach, in Hz.
pub const MAX_PLL_FREQ: u32 = 64_000_000;

/// System clock mux source.
#[derive(Clone, Copy)]
pub enum ClockSrc {
    HSE(HseDivider),
    HSI16,
    Pll(PllSrc),
    Msi,
}

/// Ranges of the multi-speed internal oscillator, from about 100 kHz up
/// to about 48 MHz, with the register encoding given by `bits`.
#[derive(Debug, Clone, Copy)]
pub enum MsiRange {
    Range100K,
    Range200K,
    Range400K,
    Range800K,
    Range1M,
    Range2M,
    Range4M,
    Range8M,
    Range16M,
    Range24M,
    Range32M,
    Range48M,
}

impl MsiRange {
    /// Register encoding of the range selection.
    pub open spec fn spec_bits(self) -> u8 {
        match self {
            MsiRange::Range100K => 0,
            MsiRange::Range200K => 1,
            MsiRange::Range400K => 2,
            MsiRange::Range800K => 3,
            MsiRange::Range1M => 4,
            MsiRange::Range2M => 5,
            MsiRange::Range4M => 6,
            MsiRange::Range8M => 7,
            MsiRange::Range16M => 8,
            MsiRange::Range24M => 9,
            MsiRange::Range32M => 10,
            MsiRange::Range48M => 11,
        }
    }

    /// Register encoding of the range selection.
    pub fn bits(self) -> (b: u8)
        ensures
            b == self.spec_bits(),
    {
        match self {
            MsiRange::Range100K => 0,
            MsiRange::Range200K => 1,
            MsiRange::Range400K => 2,
            MsiRange::Range800K => 3,
            MsiRange::Range1M => 4,
            MsiRange::Range2M => 5,
            MsiRange::Range4M => 6,
            MsiRange::Range8M => 7,
            MsiRange::Range16M => 8,
            MsiRange::Range24M => 9,
            MsiRange::Range32M => 10,
            MsiRange::Range48M => 11,
        }
    }
}

/// Input divider applied to the external oscillator.
#[derive(Debug, Clone, Copy)]
pub enum HseDivider {
    NotDivided,
    Div2,
}

/// Clock source feeding the main PLL.
#[derive(Debug, Clone, Copy)]
pub enum PllSrc {
    Msi(MsiRange),
    Hsi,
    Hse(HseDivider),
}

/// Bus prescaler applied between the system clock and the AHB buses.
#[derive(Clone, Copy, PartialEq, Eq, Structural)]
pub enum AHBPrescaler {
    NotDivided,
    Div2,
    Div3,
    Div4,
    Div5,
    Div6,
    Div8,
    Div10,
    Div16,
    Div32,
    Div64,
    Div128,
    Div256,
    Div512,
}

impl AHBPrescaler {
    /// Division value applied to the bus clock.
    pub open spec fn spec_divisor(self) -> u32 {
        match self {
            AHBPrescaler::NotDivided => 1,
            AHBPrescaler::Div2 => 2,
            AHBPrescaler::Div3 => 3,
            AHBPrescaler::Div4 => 4,
            AHBPrescaler::Div5 => 5,
            AHBPrescaler::Div6 => 6,
            AHBPrescaler::Div8 => 8,
            AHBPrescaler::Div10 => 10,
            AHBPrescaler::Div16 => 16,
            AHBPrescaler::Div32 => 32,
            AHBPrescaler::Div64 => 64,
            AHBPrescaler::Div128 => 128,
            AHBPrescaler::Div256 => 256,
            AHBPrescaler::Div512 => 512,
        }
    }

    /// Division value applied to the bus clock.
    pub fn divisor(self) -> (d: u32)
        ensures
            d == self.spec_divisor(),
    {
        match self {
            AHBPrescaler::NotDivided => 1,
            AHBPrescaler::Div2 => 2,
            AHBPrescaler::Div3 => 3,
            AHBPrescaler::Div4 => 4,
            AHBPrescaler::Div5 => 5,
            AHBPrescaler::Div6 => 6,
            AHBPrescaler::Div8 => 8,
            AHBPrescaler::Div10 => 10,
            AHBPrescaler::Div16 => 16,
            AHBPrescaler::Div32 => 32,
            AHBPrescaler::Div64 => 64,
            AHBPrescaler::Div128 => 128,
            AHBPrescaler::Div256 => 256,
            AHBPrescaler::Div512 => 512,
        }
    }

    /// Register encoding of the prescaler choice.
    pub open spec fn spec_bits(self) -> u8 {
        match self {
            AHBPrescaler::NotDivided => 0x01,
            AHBPrescaler::Div2 => 0x08,
            AHBPrescaler::Div3 => 0x01,
            AHBPrescaler::Div4 => 0x09,
            AHBPrescaler::Div5 => 0x02,
            AHBPrescaler::Div6 => 0x05,
            AHBPrescaler::Div8 => 0x0a,
            AHBPrescaler::Div10 => 0x06,
            AHBPrescaler::Div16 => 0x0b,
            AHBPrescaler::Div32 => 0x07,
            AHBPrescaler::Div64 => 0x0c,
            AHBPrescaler::Div128 => 0x0d,
            AHBPrescaler::Div256 => 0x0e,
            AHBPrescaler::Div512 => 0x0f,
        }
    }

    /// Register encoding of the prescaler choice.
    pub fn bits(self) -> (b: u8)
        ensures
            b == self.spec_bits(),
    {
        match self {
            AHBPrescaler::NotDivided => 0x01,
            AHBPrescaler::Div2 => 0x08,
            AHBPrescaler::Div3 => 0x01,
            AHBPrescaler::Div4 => 0x09,
            AHBPrescaler::Div5 => 0x02,
            AHBPrescaler::Div6 => 0x05,
            AHBPrescaler::Div8 => 0x0a,
            AHBPrescaler::Div10 => 0x06,
            AHBPrescaler::Div16 => 0x0b,
            AHBPrescaler::Div32 => 0x07,
            AHBPrescaler::Div64 => 0x0c,
            AHBPrescaler::Div128 => 0x0d,
            AHBPrescaler::Div256 => 0x0e,
            AHBPrescaler::Div512 => 0x0f,
        }
    }
}

/// Bus prescaler applied between the AHB clock and the two APB buses.
#[derive(Clone, Copy)]
pub enum APBPrescaler {
    NotDivided,
    Div2,
    Div4,
    Div8,
    Div16,
}

impl APBPrescaler {
    /// Division value applied to the bus clock.
    pub open spec fn spec_divisor(self) -> u32 {
        match self {
            APBPrescaler::NotDivided => 1,
            APBPrescaler::Div2 => 2,
            APBPrescaler::Div4 => 4,
            APBPrescaler::Div8 => 8,
            APBPrescaler::Div16 => 16,
        }
    }

    /// Division value applied to the bus clock.
    pub fn divisor(self) -> (d: u32)
        ensures
            d == self.spec_divisor(),
    {
        match self {
            APBPrescaler::NotDivided => 1,
            APBPrescaler::Div2 => 2,
            APBPrescaler::Div4 => 4,
            APBPrescaler::Div8 => 8,
            APBPrescaler::Div16 => 16,
        }
    }

    /// Register encoding of the prescaler choice.
    pub open spec fn spec_bits(self) -> u8 {
        match self {
            APBPrescaler::NotDivided => 1,
            APBPrescaler::Div2 => 0x04,
            APBPrescaler::Div4 => 0x05,
            APBPrescaler::Div8 => 0x06,
            APBPrescaler::Div16 => 0x07,
        }
    }

    /// Register encoding of the prescaler choice.
    pub fn bits(self) -> (b: u8)
        ensures
            b == self.spec_bits(),
    {
        match self {
            APBPrescaler::NotDivided => 1,
            APBPrescaler::Div2 => 0x04,
            APBPrescaler::Div4 => 0x05,
            APBPrescaler::Div8 => 0x06,
            APBPrescaler::Div16 => 0x07,
        }
    }
}

/// Clock source for the real-time clock domain.
#[derive(Debug, Copy, Clone)]
pub enum RtcClkSrc {
    NoClock,
    Lse,
    Lsi,
    HseDiv32,
}

impl RtcClkSrc {
    /// Register encoding of the source selection.
    pub open spec fn spec_bits(self) -> u8 {
        match self {
            RtcClkSrc::NoClock => 0b00,
            RtcClkSrc::Lse => 0b01,
            RtcClkSrc::Lsi => 0b10,
            RtcClkSrc::HseDiv32 => 0b11,
        }
    }

    /// Register encoding of the source selection.
    pub fn bits(self) -> (b: u8)
        ensures
            b == self.spec_bits(),
    {
        match self {
            RtcClkSrc::NoClock => 0b00,
            RtcClkSrc::Lse => 0b01,
            RtcClkSrc::Lsi => 0b10,
            RtcClkSrc::HseDiv32 => 0b11,
        }
    }
}

/// CPU prescaler, with the register encodings given in the reference
/// manual.
#[derive(Debug, Copy, Clone)]
pub enum HDivider {
    NotDivided,
    Div2,
    Div3,
    Div4,
    Div5,
    Div6,
    Div10,
    Div8,
    Div16,
    Div32,
    Div64,
    Div128,
    Div256,
    Div512,
}

impl HDivider {
    /// Division value applied to the system clock.
    pub open spec fn spec_divisor(self) -> u32 {
        match self {
            HDivider::NotDivided => 1,
            HDivider::Div2 => 2,
            HDivider::Div3 => 3,
            HDivider::Div4 => 4,
            HDivider::Div5 => 5,
            HDivider::Div6 => 6,
            HDivider::Div10 => 10,
            HDivider::Div8 => 8,
            HDivider::Div16 => 16,
            HDivider::Div32 => 32,
            HDivider::Div64 => 64,
            HDivider::Div128 => 128,
            HDivider::Div256 => 256,
            HDivider::Div512 => 512,
        }
    }

    /// Returns division value
    pub fn divisor(&self) -> (d: u32)
        ensures
            d == self.spec_divisor(),
    {
        match self {
            HDivider::NotDivided => 1,
            HDivider::Div2 => 2,
            HDivider::Div3 => 3,
            HDivider::Div4 => 4,
            HDivider::Div5 => 5,
            HDivider::Div6 => 6,
            HDivider::Div10 => 10,
            HDivider::Div8 => 8,
            HDivider::Div16 => 16,
            HDivider::Div32 => 32,
            HDivider::Div64 => 64,
            HDivider::Div128 => 128,
            HDivider::Div256 => 256,
            HDivider::Div512 => 512,
        }
    }

    /// Register encoding of the prescaler choice.
    pub open spec fn spec_bits(self) -> u8 {
        match self {
            HDivider::NotDivided => 0b0000,
            HDivider::Div2 => 0b1000,
            HDivider::Div3 => 0b0001,
            HDivider::Div4 => 0b1001,
            HDivider::Div5 => 0b0010,
            HDivider::Div6 => 0b0101,
            HDivider::Div10 => 0b0110,
            HDivider::Div8 => 0b1010,
            HDivider::Div16 => 0b1011,
            HDivider::Div32 => 0b0111,
            HDivider::Div64 => 0b1100,
            HDivider::Div128 => 0b1101,
            HDivider::Div256 => 0b1110,
            HDivider::Div512 => 0b1111,
        }
    }

    /// Register encoding of the prescaler choice.
    pub fn bits(self) -> (b: u8)
        ensures
            b == self.spec_bits(),
    {
        match self {
            HDivider::NotDivided => 0b0000,
            HDivider::Div2 => 0b1000,
            HDivider::Div3 => 0b0001,
            HDivider::Div4 => 0b1001,
            HDivider::Div5 => 0b0010,
            HDivider::Div6 => 0b0101,
            HDivider::Div10 => 0b0110,
            HDivider::Div8 => 0b1010,
            HDivider::Div16 => 0b1011,
            HDivider::Div32 => 0b0111,
            HDivider::Div64 => 0b1100,
            HDivider::Div128 => 0b1101,
            HDivider::Div256 => 0b1110,
            HDivider::Div512 => 0b1111,
        }
    }
}

/// PLL configuration: input divider `m`, multiplier `n`, and the three
/// output dividers `r` (system), `q` and `p` (optional extra outputs).
#[derive(Debug, Clone)]
pub struct PllConfig {
    pub m: u8,
    pub n: u8,
    pub r: u8,
    pub q: Option<u8>,
    pub p: Option<u8>,
}

/// The default PLL setup: multiply by eight, divide the output by two.
pub open spec fn spec_default_pll_config() -> PllConfig {
    PllConfig { m: 1, n: 8, r: 2, q: None, p: None }
}

impl Default for PllConfig {
    fn default() -> (c: PllConfig)
        ensures
            c == spec_default_pll_config(),
    {
        PllConfig { m: 1, n: 8, r: 2, q: None, p: None }
    }
}

/// Wakeup clock used when leaving the low-power stop mode.
#[derive(Debug, Clone, Copy)]
pub enum StopWakeupClock {
    MSI,
    HSI16,
}

/// Clocks configutation
pub struct Config {
    pub mux: ClockSrc,
    pub cpu1_hdiv: HDivider,
    pub cpu2_hdiv: HDivider,
    pub ahb_pre: AHBPrescaler,
    pub apb1_pre: APBPrescaler,
    pub apb2_pre: APBPrescaler,
    pub pll_config: PllConfig,
    pub stop_wakeup_clk: StopWakeupClock,
    pub with_lse: bool,
    pub rtc_src: RtcClkSrc,
}

/// The default configuration: run everything undivided from the internal
/// 16 MHz oscillator, with no low-speed clocks enabled.
pub open spec fn spec_default_config() -> Config {
    Config {
        mux: ClockSrc::HSI16,
        cpu1_hdiv: HDivider::NotDivided,
        cpu2_hdiv: HDivider::NotDivided,
        ahb_pre: AHBPrescaler::NotDivided,
        apb1_pre: APBPrescaler::NotDivided,
        apb2_pre: APBPrescaler::NotDivided,
        pll_config: spec_default_pll_config(),
        stop_wakeup_clk: StopWakeupClock::MSI,
        with_lse: false,
        rtc_src: RtcClkSrc::NoClock,
    }
}

impl Default for Config {
    fn default() -> (c: Config)
        ensures
            c == spec_default_config(),
    {
        Config {
            mux: ClockSrc::HSI16,
            cpu1_hdiv: HDivider::NotDivided,
            cpu2_hdiv: HDivider::NotDivided,
            ahb_pre: AHBPrescaler::NotDivided,
            apb1_pre: APBPrescaler::NotDivided,
            apb2_pre: APBPrescaler::NotDivided,
            pll_config: PllConfig::default(),
            stop_wakeup_clk: StopWakeupClock::MSI,
            with_lse: false,
            rtc_src: RtcClkSrc::NoClock,
        }
    }
}

impl Config {
    /// Selects the system clock source.
    pub fn clock_src(self, mux: ClockSrc) -> (c: Config)
        ensures
            c == (Config { mux, ..self }),
    {
        Config { mux, ..self }
    }

    /// Selects the prescaler for the first core.
    pub fn cpu1_hdiv(self, div: HDivider) -> (c: Config)
        ensures
            c == (Config { cpu1_hdiv: div, ..self }),
    {
        Config { cpu1_hdiv: div, ..self }
    }

    /// Selects the prescaler for the second core.
    pub fn cpu2_hdiv(self, div: HDivider) -> (c: Config)
        ensures
            c == (Config { cpu2_hdiv: div, ..self }),
    {
        Config { cpu2_hdiv: div, ..self }
    }

    /// Selects the AHB bus prescaler.
    pub fn ahb_pre(self, pre: AHBPrescaler) -> (c: Config)
        ensures
            c == (Config { ahb_pre: pre, ..self }),
    {
        Config { ahb_pre: pre, ..self }
    }

    /// Selects the first APB bus prescaler.
    pub fn apb1_pre(self, pre: APBPrescaler) -> (c: Config)
        ensures
            c == (Config { apb1_pre: pre, ..self }),
    {
        Config { apb1_pre: pre, ..self }
    }

    /// Selects the second APB bus prescaler.
    pub fn apb2_pre(self, pre: APBPrescaler) -> (c: Config)
        ensures
            c == (Config { apb2_pre: pre, ..self }),
    {
        Config { apb2_pre: pre, ..self }
    }

    /// Sets the PLL coefficients.
    pub fn pll_config(self, pll_config: PllConfig) -> (c: Config)
        ensures
            c == (Config { pll_config: pll_config, ..self }),
    {
        Config { pll_config, ..self }
    }

    /// Selects the wakeup clock for leaving stop mode.
    pub fn stop_wakeup_clk(self, stop_wakeup_clk: StopWakeupClock) -> (c: Config)
        ensures
            c == (Config { stop_wakeup_clk: stop_wakeup_clk, ..self }),
    {
        Config { stop_wakeup_clk, ..self }
    }

    /// Enables the low-speed external oscillator.
    pub fn with_lse(self, with_lse: bool) -> (c: Config)
        ensures
            c == (Config { with_lse: with_lse, ..self }),
    {
        Config { with_lse, ..self }
    }

    /// Selects the clock source for the real-time clock domain.
    pub fn rtc_src(self, src: RtcClkSrc) -> (c: Config)
        ensures
            c == (Config { rtc_src: src, ..self }),
    {
        Config { rtc_src: src, ..self }
    }

    /// Whether this configuration can be frozen: the multi-speed internal
    /// oscillator is unsupported as a source, and PLL coefficients must be
    /// in range and keep every enabled output within the maximum.
    pub fn is_supported(&self) -> (ok: bool)
        ensures
            ok == config_ok(*self),
    {
        match self.mux {
            ClockSrc::HSE(_) => true,
            ClockSrc::HSI16 => true,
            ClockSrc::Msi => false,
            ClockSrc::Pll(src) => {
                let cfg = &self.pll_config;
                let f_input: u32 = match src {
                    PllSrc::Msi(_) => {
                        return false;
                    },
                    PllSrc::Hsi => HSI_FREQ,
                    PllSrc::Hse(div) => hse_freq(div),
                };
                if !(1 < cfg.r && cfg.r <= 8) {
                    return false;
                }
                if !(7 < cfg.n && cfg.n <= 86) {
                    return false;
                }
                if !(0 < cfg.m && cfg.m <= 8) {
                    return false;
                }
                let vco_in: u32 = f_input / (cfg.m as u32);
                assert(vco_in * cfg.n <= 32_000_000 * 86) by (nonlinear_arith)
                    requires
                        0 <= vco_in <= 32_000_000,
                        0 <= cfg.n <= 86,
                ;
                let vco: u32 = vco_in * (cfg.n as u32);
                if vco / (cfg.r as u32) > MAX_PLL_FREQ {
                    return false;
                }
                if let Some(p) = cfg.p {
                    if !(1 < p && p <= 32) {
                        return false;
                    }
                    if vco / (p as u32) > MAX_PLL_FREQ {
                        return false;
                    }
                }
                if let Some(q) = cfg.q {
                    if !(1 < q && q <= 8) {
                        return false;
                    }
                    if vco / (q as u32) > MAX_PLL_FREQ {
                        return false;
                    }
                }
                true
            },
        }
    }
}

// ------------------------------------------------------------------
// The frequency computation
// ------------------------------------------------------------------

/// Frequency delivered by the external oscillator after its input
/// divider.
pub open spec fn hse_input_freq(div: HseDivider) -> int {
    match div {
        HseDivider::NotDivided => HSE_FREQ as int,
        HseDivider::Div2 => HSE_FREQ as int / 2,
    }
}

/// Frequency fed into the PLL.
pub open spec fn pll_input_freq(src: PllSrc) -> int {
    match src {
        PllSrc::Msi(_) => 0,
        PllSrc::Hsi => HSI_FREQ as int,
        PllSrc::Hse(div) => hse_input_freq(div),
    }
}

/// The PLL's internal oscillator frequency: the input divided by `m`,
/// multiplied by `n`.
pub open spec fn vco_freq(src: PllSrc, cfg: PllConfig) -> int {
    pll_input_freq(src) / (cfg.m as int) * (cfg.n as int)
}

/// Whether the PLL coefficients are in their documented ranges and keep
/// every enabled PLL output at or below the maximum.
pub open spec fn pll_config_ok(src: PllSrc, cfg: PllConfig) -> bool {
    &&& !(src is Msi)
    &&& 1 < cfg.r <= 8
    &&& 7 < cfg.n <= 86
    &&& 0 < cfg.m <= 8
    &&& vco_freq(src, cfg) / (cfg.r as int) <= MAX_PLL_FREQ
    &&& (cfg.p matches Some(p) ==> 1 < p <= 32 && vco_freq(src, cfg) / (p as int) <= MAX_PLL_FREQ)
    &&& (cfg.q matches Some(q) ==> 1 < q <= 8 && vco_freq(src, cfg) / (q as int) <= MAX_PLL_FREQ)
}

/// Whether a configuration can be frozen: the multi-speed internal
/// oscillator is not supported as a source, and a PLL setup must satisfy
/// `pll_config_ok`.
pub open spec fn config_ok(cfgr: Config) -> bool {
    match cfgr.mux {
        ClockSrc::HSE(_) => true,
        ClockSrc::HSI16 => true,
        ClockSrc::Pll(src) => pll_config_ok(src, cfgr.pll_config),
        ClockSrc::Msi => false,
    }
}

/// The system clock frequency selected by the mux.
pub open spec fn sys_clk_freq(cfgr: Config) -> int {
    match cfgr.mux {
        ClockSrc::HSE(div) => hse_input_freq(div),
        ClockSrc::HSI16 => HSI_FREQ as int,
        ClockSrc::Pll(src) => vco_freq(src, cfgr.pll_config) / (cfgr.pll_config.r as int),
        ClockSrc::Msi => 0,
    }
}

/// The AHB bus frequency: the system clock after the AHB prescaler.
pub open spec fn ahb_freq_of(cfgr: Config) -> int {
    sys_clk_freq(cfgr) / (cfgr.ahb_pre.spec_divisor() as int)
}

/// An APB bus frequency: the AHB clock after the APB prescaler.
pub open spec fn apb_freq_of(cfgr: Config, pre: APBPrescaler) -> int {
    ahb_freq_of(cfgr) / (pre.spec_divisor() as int)
}

/// An APB timer frequency: the bus frequency, doubled when the bus is
/// divided.
pub open spec fn apb_tim_freq_of(cfgr: Config, pre: APBPrescaler) -> int {
    if pre is NotDivided {
        ahb_freq_of(cfgr)
    } else {
        apb_freq_of(cfgr, pre) * 2
    }
}

/// A core's clock frequency: the system clock after that core's
/// prescaler.
pub open spec fn cpu_freq_of(cfgr: Config, div: HDivider) -> int {
    sys_clk_freq(cfgr) / (div.spec_divisor() as int)
}

/// Frequency of the low-speed external oscillator in Hz, when enabled.
pub const LSE_FREQ: u32 = 32_768;

/// Flash wait states needed at a given system clock frequency.
pub open spec fn spec_flash_latency(sys_clk: u32) -> u8 {
    if sys_clk <= 18_000_000 {
        0
    } else if sys_clk <= 36_000_000 {
        1
    } else if sys_clk <= 54_000_000 {
        2
    } else {
        3
    }
}

/// Flash wait states needed at a given system clock frequency.
pub fn flash_latency(sys_clk: u32) -> (l: u8)
    ensures
        l == spec_flash_latency(sys_clk),
{
    if sys_clk <= 18_000_000 {
        0
    } else if sys_clk <= 36_000_000 {
        1
    } else if sys_clk <= 54_000_000 {
        2
    } else {
        3
    }
}

/// Every frequency of the configured clock tree, in Hz.
#[derive(Debug, Clone, Copy)]
pub struct Clocks {
    pub sys: u32,
    pub ahb1: u32,
    pub ahb2: u32,
    pub ahb3: u32,
    pub apb1: u32,
    pub apb2: u32,
    pub apb1_tim: u32,
    pub apb2_tim: u32,
    pub pll_clk: Option<u32>,
    pub pllp: Option<u32>,
    pub pllq: Option<u32>,
    pub cpu_1: u32,
    pub cpu_2: u32,
    pub lse: Option<u32>,
}

/// Whether `clocks` is exactly the tree that `cfgr` configures.
pub open spec fn clocks_match(cfgr: Config, clocks: Clocks) -> bool {
    &&& clocks.sys == sys_clk_freq(cfgr)
    &&& clocks.ahb1 == ahb_freq_of(cfgr)
    &&& clocks.ahb2 == ahb_freq_of(cfgr)
    &&& clocks.ahb3 == ahb_freq_of(cfgr)
    &&& clocks.apb1 == apb_freq_of(cfgr, cfgr.apb1_pre)
    &&& clocks.apb2 == apb_freq_of(cfgr, cfgr.apb2_pre)
    &&& clocks.apb1_tim == apb_tim_freq_of(cfgr, cfgr.apb1_pre)
    &&& clocks.apb2_tim == apb_tim_freq_of(cfgr, cfgr.apb2_pre)
    &&& clocks.pll_clk == (match cfgr.mux {
        ClockSrc::Pll(src) => Some((vco_freq(src, cfgr.pll_config) / (cfgr.pll_config.r as int)) as u32),
        _ => None::<u32>,
    })
    &&& clocks.pllp == (match (cfgr.mux, cfgr.pll_config.p) {
        (ClockSrc::Pll(src), Some(p)) => Some((vco_freq(src, cfgr.pll_config) / (p as int)) as u32),
        _ => None::<u32>,
    })
    &&& clocks.pllq == (match (cfgr.mux, cfgr.pll_config.q) {
        (ClockSrc::Pll(src), Some(q)) => Some((vco_freq(src, cfgr.pll_config) / (q as int)) as u32),
        _ => None::<u32>,
    })
    &&& clocks.cpu_1 == cpu_freq_of(cfgr, cfgr.cpu1_hdiv)
    &&& clocks.cpu_2 == cpu_freq_of(cfgr, cfgr.cpu2_hdiv)
    &&& clocks.lse == (if cfgr.with_lse { Some(LSE_FREQ) } else { None::<u32> })
}

/// Handle owning the reset and clock control peripheral. `freeze`
/// consumes it, so the tree is configured at most once.
pub struct Rcc {
    _owner: (),
}

impl Rcc {
    /// Takes exclusive ownership of the clock control peripheral.
    pub fn new() -> Rcc {
        Rcc { _owner: () }
    }
}

/// Extension trait that freezes the clock control peripheral with a
/// provided clocks configuration.
pub trait RccExt {
    /// Configures the clock tree once and for all and returns every
    /// derived frequency.
    fn freeze(self, config: Config) -> (clocks: Clocks)
        requires
            config_ok(config),
        ensures
            clocks_match(config, clocks),
    ;
}

/// The frequency delivered by the external oscillator after its divider.
fn hse_freq(div: HseDivider) -> (f: u32)
    ensures
        f == hse_input_freq(div),
{
    match div {
        HseDivider::NotDivided => HSE_FREQ,
        HseDivider::Div2 => HSE_FREQ / 2,
    }
}

impl RccExt for Rcc {
    fn freeze(self, cfgr: Config) -> (clocks: Clocks) {
        let mut pll_clk: Option<u32> = None;
        let mut pllp_clk: Option<u32> = None;
        let mut pllq_clk: Option<u32> = None;

        let lse_freq: Option<u32> = if cfgr.with_lse {
            Some(LSE_FREQ)
        } else {
            None
        };

        let sys_clk: u32 = match cfgr.mux {
            ClockSrc::HSI16 => HSI_FREQ,
            ClockSrc::HSE(div) => hse_freq(div),
            ClockSrc::Pll(src) => {
                let config = &cfgr.pll_config;

                let f_input: u32 = match src {
                    PllSrc::Msi(_range) => 0,
                    PllSrc::Hsi => HSI_FREQ,
                    PllSrc::Hse(div) => hse_freq(div),
                };

                let vco_in: u32 = f_input / (config.m as u32);
                assert(vco_in * config.n <= 32_000_000 * 86) by (nonlinear_arith)
                    requires
                        0 <= vco_in <= 32_000_000,
                        0 <= config.n <= 86,
                ;
                let vco: u32 = vco_in * (config.n as u32);
                let f_pllr: u32 = vco / (config.r as u32);

                pll_clk = Some(f_pllr);

                if let Some(p) = config.p {
                    let f_pllp: u32 = vco / (p as u32);
                    pllp_clk = Some(f_pllp);
                }

                if let Some(q) = config.q {
                    let f_pllq: u32 = vco / (q as u32);
                    pllq_clk = Some(f_pllq);
                }

                f_pllr
            },
            ClockSrc::Msi => 0,
        };

        let ahb_freq: u32 = sys_clk / cfgr.ahb_pre.divisor();

        let apb1_div: u32 = cfgr.apb1_pre.divisor();
        let (apb1_freq, apb1_tim_freq): (u32, u32) = if apb1_div == 1 {
            (ahb_freq, ahb_freq)
        } else {
            let freq: u32 = ahb_freq / apb1_div;
            (freq, freq * 2)
        };

        let apb2_div: u32 = cfgr.apb2_pre.divisor();
        let (apb2_freq, apb2_tim_freq): (u32, u32) = if apb2_div == 1 {
            (ahb_freq, ahb_freq)
        } else {
            let freq: u32 = ahb_freq / apb2_div;
            (freq, freq * 2)
        };

        let cpu1_freq: u32 = sys_clk / cfgr.cpu1_hdiv.divisor();
        let cpu2_freq: u32 = sys_clk / cfgr.cpu2_hdiv.divisor();

        Clocks {
            sys: sys_clk,
            ahb1: ahb_freq,
            ahb2: ahb_freq,
            ahb3: ahb_freq,
            apb1: apb1_freq,
            apb2: apb2_freq,
            apb1_tim: apb1_tim_freq,
            apb2_tim: apb2_tim_freq,
            pll_clk,
            pllp: pllp_clk,
            pllq: pllq_clk,
            cpu_1: cpu1_freq,
            cpu_2: cpu2_freq,
            lse: lse_freq,
        }
    }
}

} // verus!
