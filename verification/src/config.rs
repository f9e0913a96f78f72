//! Settings of one polling session.

use vstd::prelude::*;

verus! {

/// Sampling cadence used when a start request names none, in milliseconds.
pub const DEFAULT_INTERVAL_MS: u64 = 80;

/// Settings of one polling session, fixed for the lifetime of its worker.
#[derive(Clone, Debug)]
pub struct PollConfig {
    /// Pause between two samples, in milliseconds.
    pub interval_ms: u64,
    /// Smallest L1 distance from the last delivered position that counts as movement.
    pub min_move: u32,
    /// Smallest time between two deliveries, in milliseconds; `0` disables throttling.
    pub throttle_ms: u64,
    /// Listener that the events are scoped to; `None` broadcasts to all listeners.
    pub target: Option<String>,
}

/// The threshold that a requested `min_move` stands for: absent or negative
/// requests mean no threshold.
pub open spec fn spec_min_move_of(requested: Option<i32>) -> u32 {
    match requested {
        Some(m) if m > 0 => m as u32,
        _ => 0,
    }
}

impl PollConfig {
    /// Whether deliveries are throttled.
    pub open spec fn spec_throttled(&self) -> bool {
        self.throttle_ms > 0
    }

    /// The settings that a start request with these optional fields stands for.
    pub open spec fn spec_from_request(
        interval_ms: Option<u64>,
        min_move: Option<i32>,
        throttle_ms: Option<u64>,
        target: Option<String>,
    ) -> PollConfig {
        PollConfig {
            interval_ms: match interval_ms {
                Some(ms) => ms,
                None => DEFAULT_INTERVAL_MS,
            },
            min_move: spec_min_move_of(min_move),
            throttle_ms: match throttle_ms {
                Some(ms) => ms,
                None => 0,
            },
            target,
        }
    }

    /// Builds the settings from the optional fields of a start request.
    ///
    /// A missing interval becomes [`DEFAULT_INTERVAL_MS`], a missing or
    /// negative movement threshold becomes `0`, and a missing throttle
    /// disables throttling.
    pub fn from_request(
        interval_ms: Option<u64>,
        min_move: Option<i32>,
        throttle_ms: Option<u64>,
        target: Option<String>,
    ) -> (config: PollConfig)
        ensures
            config == PollConfig::spec_from_request(interval_ms, min_move, throttle_ms, target),
    {
        let interval: u64 = match interval_ms {
            Some(ms) => ms,
            None => DEFAULT_INTERVAL_MS,
        };
        let threshold: u32 = match min_move {
            Some(m) => if m > 0 {
                m as u32
            } else {
                0
            },
            None => 0,
        };
        let throttle: u64 = match throttle_ms {
            Some(ms) => ms,
            None => 0,
        };
        PollConfig { interval_ms: interval, min_move: threshold, throttle_ms: throttle, target }
    }

    /// Whether deliveries are throttled, that is, whether `throttle_ms` is not zero.
    #[verifier::when_used_as_spec(spec_throttled)]
    pub fn throttled(&self) -> (b: bool)
        ensures
            b == self.spec_throttled(),
    {
        self.throttle_ms > 0
    }
}

impl Default for PollConfig {
    /// The settings of a start request that names nothing: a sample every
    /// 80 ms, no movement threshold, no throttle, broadcast delivery.
    fn default() -> (config: PollConfig)
        ensures
            config.interval_ms == DEFAULT_INTERVAL_MS,
            config.min_move == 0,
            config.throttle_ms == 0,
            config.target is None,
    {
        PollConfig { interval_ms: DEFAULT_INTERVAL_MS, min_move: 0, throttle_ms: 0, target: None }
    }
}

} // verus!
