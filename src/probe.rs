//! The stimulus/response protocol end to end: the rising edges the stimulus
//! generator emits, fed to the acknowledger over the looped-back line.
use vstd::prelude::*;
use crate::level::{rising_edges, stimulus_edges};
use crate::response::{
    AckPulse, ResponseTiming, fits, lemma_close_edges_coalesce, lemma_spaced_edges_all_answered,
    pulses, respond_all, spaced,
};

verus! {

/// What a run of the probe shows on an instrument: the rising stimulus edges
/// and the acknowledgement pulses.
#[derive(Clone, Debug)]
pub struct ProbeRun {
    pub edges: Vec<u64>,
    pub pulses: Vec<AckPulse>,
}

/// The rising edges of `n` stimulus periods are spaced two periods apart and
/// leave room for a whole pulse after the last one.
proof fn lemma_rising_edges_shape(period: u64, n: u64, timing: ResponseTiming)
    requires
        n * period + timing.busy() <= u64::MAX,
    ensures
        spaced(rising_edges(period, n), 2 * period),
        fits(rising_edges(period, n), timing),
{
    let e = rising_edges(period, n);
    assert forall|j: int| 0 <= j < e.len() implies e[j] == (2 * j + 1) * period && #[trigger] e[j]
        + timing.busy() <= u64::MAX by {
        assert((2 * j + 1) * period <= n * period) by (nonlinear_arith)
            requires 2 * j + 1 <= n;
        assert(0 <= (2 * j + 1) * period) by (nonlinear_arith)
            requires 0 <= j;
    }
    assert forall|j: int| 0 <= j < e.len() - 1 implies e[j + 1] >= #[trigger] e[j] + 2 * period by {
        assert((2 * (j + 1) + 1) * period == (2 * j + 1) * period + 2 * period) by (nonlinear_arith);
    }
}

/// Runs the stimulus generator for `n` periods of `period` ticks and answers
/// each rising edge with a handler that waits from tick zero.
pub fn run_probe(period: u64, n: u64, timing: ResponseTiming) -> (r: ProbeRun)
    requires
        timing.wf(),
        n * period + timing.busy() <= u64::MAX,
    ensures
        r.edges@ == rising_edges(period, n),
        r.pulses@ == pulses(rising_edges(period, n), 0, timing),
{
    proof {
        lemma_rising_edges_shape(period, n, timing);
    }
    let edges = stimulus_edges(period, n);
    let acks = respond_all(&edges, timing, 0);
    ProbeRun { edges, pulses: acks }
}

/// When the handler is done with a pulse within two stimulus periods (the
/// time between two rising edges), every rising edge is acknowledged by
/// exactly one pulse: none is lost.
pub proof fn lemma_slow_stimulus_loses_nothing(period: u64, n: u64, timing: ResponseTiming)
    requires
        timing.wf(),
        n * period + timing.busy() <= u64::MAX,
        timing.busy() <= 2 * period,
    ensures
        pulses(rising_edges(period, n), 0, timing).len() == rising_edges(period, n).len(),
{
    lemma_rising_edges_shape(period, n, timing);
    let e = rising_edges(period, n);
    assert forall|j: int| 0 <= j < e.len() - 1 implies e[j + 1] >= #[trigger] e[j] + timing.busy() by {
        assert(e[j + 1] >= e[j] + 2 * period);
    }
    lemma_spaced_edges_all_answered(e, 0, timing);
}

/// When the handler needs longer than two stimulus periods for a pulse, a run
/// with at least two rising edges gets fewer pulses than edges.
pub proof fn lemma_fast_stimulus_coalesces(period: u64, n: u64, timing: ResponseTiming)
    requires
        timing.wf(),
        n >= 3,
        n * period + timing.busy() <= u64::MAX,
        timing.busy() > 2 * period,
    ensures
        pulses(rising_edges(period, n), 0, timing).len() < rising_edges(period, n).len(),
{
    lemma_rising_edges_shape(period, n, timing);
    let e = rising_edges(period, n);
    assert(e.len() >= 2);
    assert(e[0] == period);
    assert(e[1] == 3 * period);
    lemma_close_edges_coalesce(e, 0, timing);
}

} // verus!
