//! Fixed build-time configuration: task periods, watchdog timing, the
//! interrupt priority of the high tier and the clock tree.
use vstd::prelude::*;

verus! {

/// Period of the stimulus ticker, in milliseconds.
pub const STIMULUS_PERIOD_MS: u64 = 20;

/// Period of the heartbeat ticker, in milliseconds.
pub const HEARTBEAT_PERIOD_MS: u64 = 500;

/// Timeout the watchdog is armed with, in milliseconds.
pub const WATCHDOG_TIMEOUT_MS: u64 = 20_000;

/// Sleep of the watchdog keeper between two refreshes, in milliseconds.
pub const WATCHDOG_PET_INTERVAL_MS: u64 = 10_000;

/// Hardware priority level of the interrupt vector hosting the high tier.
pub const HIGH_PRIORITY_LEVEL: u8 = 6;

/// Frequency of the external crystal, in hertz.
pub const CRYSTAL_HZ: u32 = 8_000_000;

/// The keeper sleeps strictly less than the watchdog timeout, and the
/// stimulus period is positive.
pub proof fn lemma_fixed_timing_is_consistent()
    ensures
        WATCHDOG_PET_INTERVAL_MS < WATCHDOG_TIMEOUT_MS,
        0 < STIMULUS_PERIOD_MS,
        0 < HEARTBEAT_PERIOD_MS,
{
}

/// One-shot clock-tree parameters: crystal, PLL ratios and bus prescalers.
#[derive(Clone, Copy, Debug, PartialEq, Eq, Structural)]
pub struct ClockConfig {
    pub crystal_hz: u32,
    pub crystal_bypass: bool,
    pub pll_prediv: u32,
    pub pll_mul: u32,
    pub pll_divp: u32,
    pub ahb_div: u32,
    pub apb1_div: u32,
    pub apb2_div: u32,
}

/// The system clock that the PLL produces from the crystal.
pub open spec fn sysclk_of(c: ClockConfig) -> int {
    c.crystal_hz as int / c.pll_prediv as int * c.pll_mul as int / c.pll_divp as int
}

/// All dividers are non-zero.
pub open spec fn dividers_nonzero(c: ClockConfig) -> bool {
    c.pll_prediv > 0 && c.pll_divp > 0 && c.ahb_div > 0 && c.apb1_div > 0 && c.apb2_div > 0
}

/// Clock frequencies derived from a configuration, in hertz.
#[derive(Clone, Copy, Debug, PartialEq, Eq, Structural)]
pub struct ClockTree {
    pub sysclk_hz: u64,
    pub hclk_hz: u64,
    pub pclk1_hz: u64,
    pub pclk2_hz: u64,
}

impl ClockConfig {
    /// The configuration the probe boots with: an 8 MHz crystal in bypass
    /// mode, PLL x168 /4 /2, AHB /1, APB1 /4, APB2 /2.
    pub fn probe() -> (r: ClockConfig)
        ensures
            r.crystal_hz == CRYSTAL_HZ,
            r.crystal_bypass,
            r.pll_prediv == 4 && r.pll_mul == 168 && r.pll_divp == 2,
            r.ahb_div == 1 && r.apb1_div == 4 && r.apb2_div == 2,
            dividers_nonzero(r),
            sysclk_of(r) == 168_000_000,
    {
        ClockConfig {
            crystal_hz: CRYSTAL_HZ,
            crystal_bypass: true,
            pll_prediv: 4,
            pll_mul: 168,
            pll_divp: 2,
            ahb_div: 1,
            apb1_div: 4,
            apb2_div: 2,
        }
    }

    /// The frequencies this configuration yields, or `None` when a divider
    /// is zero.
    pub fn tree(&self) -> (r: Option<ClockTree>)
        ensures
            r is None <==> !dividers_nonzero(*self),
            r matches Some(t) ==> {
                &&& t.sysclk_hz == sysclk_of(*self)
                &&& t.hclk_hz == sysclk_of(*self) / self.ahb_div as int
                &&& t.pclk1_hz == t.hclk_hz as int / self.apb1_div as int
                &&& t.pclk2_hz == t.hclk_hz as int / self.apb2_div as int
            },
    {
        if self.pll_prediv == 0 || self.pll_divp == 0 || self.ahb_div == 0 || self.apb1_div == 0
            || self.apb2_div == 0 {
            return None;
        }
        let vco_in: u64 = self.crystal_hz as u64 / self.pll_prediv as u64;
        assert(vco_in <= u32::MAX) by (nonlinear_arith)
            requires vco_in == self.crystal_hz as u64 / self.pll_prediv as u64, self.pll_prediv > 0;
        assert(vco_in * (self.pll_mul as u64) <= u32::MAX as int * u32::MAX as int) by (nonlinear_arith)
            requires vco_in <= u32::MAX;
        let vco: u64 = vco_in * self.pll_mul as u64;
        let sys: u64 = vco / self.pll_divp as u64;
        let hclk: u64 = sys / self.ahb_div as u64;
        Some(ClockTree {
            sysclk_hz: sys,
            hclk_hz: hclk,
            pclk1_hz: hclk / self.apb1_div as u64,
            pclk2_hz: hclk / self.apb2_div as u64,
        })
    }
}

} // verus!
