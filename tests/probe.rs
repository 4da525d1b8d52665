use latency_probe::config::{
    ClockConfig, HEARTBEAT_PERIOD_MS, HIGH_PRIORITY_LEVEL, STIMULUS_PERIOD_MS,
    WATCHDOG_PET_INTERVAL_MS, WATCHDOG_TIMEOUT_MS,
};
use latency_probe::level::{stimulus_edges, Heartbeat, Level, StimulusGenerator};
use latency_probe::probe::run_probe;
use latency_probe::response::{respond_all, AckPulse, ResponseHandler, ResponseTiming};

#[test]
fn idle_edge_gives_one_pulse_after_it() {
    let timing = ResponseTiming { latency: 1, width: 1 };
    let mut h = ResponseHandler::new(timing, 0);
    let p = h.on_edge(0).unwrap();
    assert_eq!(p, AckPulse { rise: 1, fall: 2 });
    assert!(p.rise > 0 && p.fall > p.rise);
    assert_eq!(h.armed_at, 2);
}

#[test]
fn edge_while_busy_is_lost() {
    let timing = ResponseTiming { latency: 3, width: 2 };
    let mut h = ResponseHandler::new(timing, 0);
    assert_eq!(h.on_edge(10), Some(AckPulse { rise: 13, fall: 15 }));
    assert_eq!(h.on_edge(14), None);
    assert_eq!(h.armed_at, 15);
    assert_eq!(h.on_edge(15), Some(AckPulse { rise: 18, fall: 20 }));
}

#[test]
fn edge_before_handler_waits_is_lost() {
    let timing = ResponseTiming { latency: 1, width: 1 };
    let mut h = ResponseHandler::new(timing, 100);
    assert_eq!(h.on_edge(99), None);
    assert_eq!(h.on_edge(100), Some(AckPulse { rise: 101, fall: 102 }));
}

#[test]
fn ten_periods_lose_no_edge() {
    let timing = ResponseTiming { latency: 1, width: 1 };
    let run = run_probe(STIMULUS_PERIOD_MS, 10, timing);
    assert_eq!(run.edges, vec![20, 60, 100, 140, 180]);
    assert_eq!(run.pulses.len(), run.edges.len());
    for (e, p) in run.edges.iter().zip(run.pulses.iter()) {
        assert_eq!(p.rise, e + 1);
        assert_eq!(p.fall, e + 2);
    }
}

#[test]
fn period_below_latency_coalesces_edges() {
    let timing = ResponseTiming { latency: 5, width: 1 };
    let run = run_probe(1, 10, timing);
    assert_eq!(run.edges, vec![1, 3, 5, 7, 9]);
    assert!(run.pulses.len() < run.edges.len());
    assert_eq!(
        run.pulses,
        vec![AckPulse { rise: 6, fall: 7 }, AckPulse { rise: 12, fall: 13 }]
    );
}

#[test]
fn respond_all_on_no_edges() {
    let timing = ResponseTiming { latency: 1, width: 1 };
    assert!(respond_all(&Vec::new(), timing, 0).is_empty());
}

#[test]
fn stimulus_edges_every_other_toggle() {
    assert_eq!(stimulus_edges(20, 0), Vec::<u64>::new());
    assert_eq!(stimulus_edges(20, 1), vec![20]);
    assert_eq!(stimulus_edges(7, 4), vec![7, 21]);
}

#[test]
fn stimulus_toggles_both_pins() {
    let mut g = StimulusGenerator::new();
    assert!(g.on_tick());
    assert_eq!(g.stimulus, Level::High);
    assert_eq!(g.sent, Level::High);
    assert!(!g.on_tick());
    assert_eq!(g.stimulus, Level::Low);
    assert_eq!(g.sent, Level::Low);
}

#[test]
fn heartbeat_toggles() {
    let mut h = Heartbeat::new();
    assert_eq!(h.on_tick(), Level::High);
    assert_eq!(h.on_tick(), Level::Low);
    assert_eq!(Level::Low.toggled(), Level::High);
}

#[test]
fn fixed_configuration() {
    assert_eq!(STIMULUS_PERIOD_MS, 20);
    assert_eq!(HEARTBEAT_PERIOD_MS, 500);
    assert_eq!(WATCHDOG_TIMEOUT_MS, 20_000);
    assert_eq!(WATCHDOG_PET_INTERVAL_MS, 10_000);
    assert_eq!(HIGH_PRIORITY_LEVEL, 6);
}

#[test]
fn probe_clock_tree() {
    let c = ClockConfig::probe();
    assert_eq!(c.crystal_hz, 8_000_000);
    let t = c.tree().unwrap();
    assert_eq!(t.sysclk_hz, 168_000_000);
    assert_eq!(t.hclk_hz, 168_000_000);
    assert_eq!(t.pclk1_hz, 42_000_000);
    assert_eq!(t.pclk2_hz, 84_000_000);
}

#[test]
fn zero_divider_has_no_clock_tree() {
    let mut c = ClockConfig::probe();
    c.apb1_div = 0;
    assert_eq!(c.tree(), None);
}
