//! Output pin levels and the toggling tasks of the low tier: the stimulus
//! generator and the heartbeat.
use vstd::prelude::*;

verus! {

/// The two states of an output pin.
#[derive(Clone, Copy, Debug, PartialEq, Eq, Structural)]
pub enum Level {
    Low,
    High,
}

/// The other level.
pub open spec fn flip(l: Level) -> Level {
    match l {
        Level::Low => Level::High,
        Level::High => Level::Low,
    }
}

impl Level {
    /// The other level.
    pub fn toggled(self) -> (r: Level)
        ensures
            r == flip(self),
    {
        match self {
            Level::Low => Level::High,
            Level::High => Level::Low,
        }
    }
}

/// The level of a pin that started low and was toggled `n` times.
pub open spec fn level_after(n: int) -> Level {
    if n % 2 == 0 {
        Level::Low
    } else {
        Level::High
    }
}

/// The periodic edge emitter: a stimulus pin and a "sent" marker pin, both
/// toggled on every tick of its ticker.
#[derive(Clone, Copy, Debug, PartialEq, Eq, Structural)]
pub struct StimulusGenerator {
    pub stimulus: Level,
    pub sent: Level,
}

impl StimulusGenerator {
    /// Both pins start low.
    pub fn new() -> (r: StimulusGenerator)
        ensures
            r.stimulus == Level::Low,
            r.sent == Level::Low,
    {
        StimulusGenerator { stimulus: Level::Low, sent: Level::Low }
    }

    /// A tick of the ticker: both pins toggle. Returns whether the stimulus
    /// pin went from low to high, the edge that the response line sees.
    pub fn on_tick(&mut self) -> (rising: bool)
        ensures
            final(self).stimulus == flip(old(self).stimulus),
            final(self).sent == flip(old(self).sent),
            rising == (old(self).stimulus == Level::Low),
    {
        let rising = self.stimulus == Level::Low;
        self.stimulus = self.stimulus.toggled();
        self.sent = self.sent.toggled();
        rising
    }
}

/// The liveness indicator: one pin, toggled on every tick of its ticker.
#[derive(Clone, Copy, Debug, PartialEq, Eq, Structural)]
pub struct Heartbeat {
    pub led: Level,
}

impl Heartbeat {
    /// The indicator starts low.
    pub fn new() -> (r: Heartbeat)
        ensures
            r.led == Level::Low,
    {
        Heartbeat { led: Level::Low }
    }

    /// A tick of the ticker: the indicator toggles; the new level is returned.
    pub fn on_tick(&mut self) -> (r: Level)
        ensures
            final(self).led == flip(old(self).led),
            r == final(self).led,
    {
        self.led = self.led.toggled();
        self.led
    }
}

/// Ticks of the rising stimulus edges over `n` periods of length `period`,
/// the pin starting low: every other toggle, from the first on.
pub open spec fn rising_edges(period: u64, n: u64) -> Seq<u64> {
    Seq::new(((n + 1) / 2) as nat, |j: int| ((2 * j + 1) * period) as u64)
}

/// Drives a stimulus generator through `n` periods of length `period` and
/// returns the ticks of the rising edges it emits.
pub fn stimulus_edges(period: u64, n: u64) -> (r: Vec<u64>)
    requires
        n * period <= u64::MAX,
    ensures
        r@ == rising_edges(period, n),
{
    let mut g = StimulusGenerator::new();
    let mut out: Vec<u64> = Vec::new();
    let mut k: u64 = 0;
    while k < n
        invariant
            k <= n,
            n * period <= u64::MAX,
            g.stimulus == level_after(k as int),
            out@ =~= rising_edges(period, k),
        decreases n - k,
    {
        assert((k + 1) * period <= n * period) by (nonlinear_arith)
            requires k + 1 <= n;
        let rising = g.on_tick();
        k = k + 1;
        if rising {
            out.push(k * period);
            proof {
                assert(k % 2 == 1);
                assert(rising_edges(period, k).len() == out@.len());
                assert forall|j: int| 0 <= j < out@.len() implies out@[j] == rising_edges(period, k)[j] by {
                    if j == out@.len() - 1 {
                        assert(2 * j + 1 == k);
                    }
                }
            }
        } else {
            proof {
                assert(k % 2 == 0);
                assert(rising_edges(period, k).len() == out@.len());
            }
        }
    }
    out
}

} // verus!
