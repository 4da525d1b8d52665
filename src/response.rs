//! The edge-triggered acknowledger of the high tier and the single-slot
//! edge line it waits on.
//!
//! Times are ticks of one monotonic clock. The line is armed while the
//! handler waits; an edge that arrives while the handler is still busy with
//! the previous one is not queued and is lost.
use vstd::prelude::*;

verus! {

/// Delays of the response path, in ticks.
#[derive(Clone, Copy, Debug, PartialEq, Eq, Structural)]
pub struct ResponseTiming {
    /// From the edge to the acknowledgement going high.
    pub latency: u64,
    /// How long the acknowledgement stays high.
    pub width: u64,
}

impl ResponseTiming {
    /// Both delays are at least one tick: the pulse starts strictly after the
    /// edge and ends strictly after it starts.
    pub open spec fn wf(self) -> bool {
        self.latency >= 1 && self.width >= 1
    }

    /// Ticks from an edge until the handler waits again.
    pub open spec fn busy(self) -> int {
        self.latency + self.width
    }
}

/// One acknowledgement pulse: the ticks at which the pin goes high and low.
#[derive(Clone, Copy, Debug, PartialEq, Eq, Structural)]
pub struct AckPulse {
    pub rise: u64,
    pub fall: u64,
}

/// The acknowledger and the state of its edge line.
#[derive(Clone, Copy, Debug, PartialEq, Eq, Structural)]
pub struct ResponseHandler {
    pub timing: ResponseTiming,
    /// First tick at which the line is armed again.
    pub armed_at: u64,
}

/// The pulses the handler produces for a run of edges, the handler being
/// armed from tick `armed_at` on.
pub open spec fn pulses(edges: Seq<u64>, armed_at: int, timing: ResponseTiming) -> Seq<AckPulse>
    decreases edges.len(),
{
    if edges.len() == 0 {
        Seq::empty()
    } else if edges[0] >= armed_at {
        let t = edges[0] as int;
        seq![AckPulse { rise: (t + timing.latency) as u64, fall: (t + timing.busy()) as u64 }]
            + pulses(edges.drop_first(), t + timing.busy(), timing)
    } else {
        pulses(edges.drop_first(), armed_at, timing)
    }
}

/// Every edge comes at least `gap` ticks after the one before it.
pub open spec fn spaced(edges: Seq<u64>, gap: int) -> bool {
    forall|i: int| 0 <= i < edges.len() - 1 ==> edges[i + 1] >= #[trigger] edges[i] + gap
}

/// All edge ticks leave room for a whole pulse below `u64::MAX`.
pub open spec fn fits(edges: Seq<u64>, timing: ResponseTiming) -> bool {
    forall|i: int| 0 <= i < edges.len() ==> edges[i] + timing.busy() <= u64::MAX
}

impl ResponseHandler {
    /// A handler that waits for its first edge from tick `now` on.
    pub fn new(timing: ResponseTiming, now: u64) -> (r: ResponseHandler)
        requires
            timing.wf(),
        ensures
            r.timing == timing,
            r.armed_at == now,
    {
        ResponseHandler { timing, armed_at: now }
    }

    /// The handler waits on the line at tick `now`.
    pub open spec fn idle_at(self, now: int) -> bool {
        now >= self.armed_at
    }

    /// A rising edge at tick `t`. When the handler is waiting, it answers with
    /// exactly one pulse that rises strictly after the edge and falls
    /// strictly after it rises, and is busy until the pulse ends; otherwise the
    /// edge is lost and nothing changes.
    pub fn on_edge(&mut self, t: u64) -> (r: Option<AckPulse>)
        requires
            old(self).timing.wf(),
            t + old(self).timing.busy() <= u64::MAX,
        ensures
            final(self).timing == old(self).timing,
            r is Some <==> old(self).idle_at(t as int),
            r matches Some(p) ==> {
                &&& p.rise == t + old(self).timing.latency
                &&& p.fall == t + old(self).timing.busy()
                &&& t < p.rise < p.fall
                &&& final(self).armed_at == p.fall
            },
            r is None ==> *final(self) == *old(self),
    {
        if t >= self.armed_at {
            let rise: u64 = t + self.timing.latency;
            let fall: u64 = rise + self.timing.width;
            self.armed_at = fall;
            Some(AckPulse { rise, fall })
        } else {
            None
        }
    }
}

/// Runs a handler over a run of edges and collects the pulses it produces.
pub fn respond_all(edges: &Vec<u64>, timing: ResponseTiming, start: u64) -> (r: Vec<AckPulse>)
    requires
        timing.wf(),
        fits(edges@, timing),
    ensures
        r@ == pulses(edges@, start as int, timing),
        r@.len() <= edges@.len(),
{
    let mut handler = ResponseHandler::new(timing, start);
    let mut out: Vec<AckPulse> = Vec::new();
    let mut i: usize = 0;
    proof {
        assert(edges@.skip(0) =~= edges@);
        assert(out@ + pulses(edges@, start as int, timing) =~= pulses(edges@, start as int, timing));
    }
    while i < edges.len()
        invariant
            0 <= i <= edges@.len(),
            handler.timing == timing,
            timing.wf(),
            fits(edges@, timing),
            out@ + pulses(edges@.skip(i as int), handler.armed_at as int, timing)
                == pulses(edges@, start as int, timing),
            out@.len() <= i,
        decreases edges@.len() - i,
    {
        let t = edges[i];
        proof {
            lemma_pulses_len(edges@.skip(i as int + 1), handler.armed_at as int, timing);
            assert(edges@.skip(i as int).drop_first() =~= edges@.skip(i as int + 1));
        }
        let before = handler;
        match handler.on_edge(t) {
            Some(p) => {
                out.push(p);
                proof {
                    assert(out@ =~= out@.drop_last() + seq![p]);
                }
            },
            None => {},
        }
        proof {
            let rest = edges@.skip(i as int);
            assert(rest[0] == t);
            if t >= before.armed_at {
                assert(out@ + pulses(edges@.skip(i as int + 1), handler.armed_at as int, timing)
                    =~= out@.drop_last() + pulses(rest, before.armed_at as int, timing));
            }
        }
        i = i + 1;
    }
    proof {
        assert(edges@.skip(i as int) =~= Seq::<u64>::empty());
        assert(out@ + Seq::<AckPulse>::empty() =~= out@);
    }
    out
}

/// No run of edges yields more pulses than it has edges.
pub proof fn lemma_pulses_len(edges: Seq<u64>, armed_at: int, timing: ResponseTiming)
    ensures
        pulses(edges, armed_at, timing).len() <= edges.len(),
    decreases edges.len(),
{
    if edges.len() > 0 {
        lemma_pulses_len(edges.drop_first(), armed_at, timing);
        lemma_pulses_len(edges.drop_first(), edges[0] + timing.busy(), timing);
    }
}

/// Edges that come no faster than the handler can answer them are never
/// lost: a waiting handler gives exactly one pulse per edge.
pub proof fn lemma_spaced_edges_all_answered(edges: Seq<u64>, armed_at: int, timing: ResponseTiming)
    requires
        edges.len() > 0 ==> edges[0] >= armed_at,
        spaced(edges, timing.busy()),
    ensures
        pulses(edges, armed_at, timing).len() == edges.len(),
    decreases edges.len(),
{
    if edges.len() > 0 {
        let rest = edges.drop_first();
        assert forall|i: int| 0 <= i < rest.len() - 1 implies rest[i + 1] >= #[trigger] rest[i]
            + timing.busy() by {
            assert(edges[i + 1] == rest[i]);
        }
        if rest.len() > 0 {
            assert(edges[1] >= edges[0] + timing.busy());
        }
        lemma_spaced_edges_all_answered(rest, edges[0] + timing.busy(), timing);
    }
}

/// An edge that follows the one before it sooner than the handler can answer
/// is lost: a run with such a pair yields fewer pulses than edges.
pub proof fn lemma_close_edges_coalesce(edges: Seq<u64>, armed_at: int, timing: ResponseTiming)
    requires
        edges.len() >= 2,
        edges[0] >= armed_at,
        edges[1] < edges[0] + timing.busy(),
    ensures
        pulses(edges, armed_at, timing).len() < edges.len(),
{
    let rest = edges.drop_first();
    let next = edges[0] + timing.busy();
    assert(rest[0] == edges[1]);
    assert(pulses(rest, next, timing) == pulses(rest.drop_first(), next, timing));
    lemma_pulses_len(rest.drop_first(), next, timing);
    assert(pulses(edges, armed_at, timing).len() == 1 + pulses(rest, next, timing).len());
}

} // verus!
