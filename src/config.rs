//! Per-run parameters, fixed at startup.
use vstd::prelude::*;

verus! {

/// Parameters of one monitoring session. Voltages are in millivolts.
#[derive(Clone, Copy, Debug, PartialEq, Eq, Structural)]
pub struct Config {
    /// Threshold of the under-range alert.
    pub under_range: i32,
    /// Threshold of the over-range alert.
    pub over_range: i32,
    /// Margin by which a new extreme must pass the last one reported.
    pub hysteresis: i32,
    /// Time between two polls.
    pub poll_interval_ms: u64,
    /// Time after which a heartbeat of the current value is due.
    pub publish_timeout_ms: u64,
}

impl Config {
    /// A configuration with the given thresholds and margin, polling every
    /// three seconds.
    pub fn new(under_range: i32, over_range: i32, hysteresis: i32, publish_timeout_secs: u32) -> (r: Config)
        ensures
            r.under_range == under_range,
            r.over_range == over_range,
            r.hysteresis == hysteresis,
            r.poll_interval_ms == 3000,
            r.publish_timeout_ms == publish_timeout_secs as u64 * 1000,
    {
        Config {
            under_range,
            over_range,
            hysteresis,
            poll_interval_ms: 3000,
            publish_timeout_ms: publish_timeout_secs as u64 * 1000,
        }
    }
}

impl Default for Config {
    /// 9.5 V under range, 50 V over range, 1 V margin, a heartbeat at most
    /// every minute.
    fn default() -> (r: Config)
        ensures
            r == (Config {
                under_range: 9500,
                over_range: 50000,
                hysteresis: 1000,
                poll_interval_ms: 3000,
                publish_timeout_ms: 60000,
            }),
    {
        Config::new(9500, 50000, 1000, 60)
    }
}

} // verus!
