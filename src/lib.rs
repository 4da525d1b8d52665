//! Decision logic of an interrupt-latency probe: a periodic stimulus edge,
//! an edge-triggered acknowledgement pulse, a heartbeat and a watchdog keeper,
//! spread over two fixed priority tiers.
//!
//! Each task is written as a state machine from event to next state and pin
//! action; the firmware around the library runs the loops and drives the pins.
pub mod config;
pub mod level;
pub mod probe;
pub mod response;
pub mod scheduler;
pub mod ticker;
pub mod watchdog;
