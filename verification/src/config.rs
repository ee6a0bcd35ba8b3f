//! The stored settings: the target point, the click interval, the countdown
//! and the click mode.
use vstd::prelude::*;
use crate::clicker::{ClickMode, mode_name};

verus! {

/// The default click interval, in milliseconds.
pub const DEFAULT_INTERVAL_MS: u64 = 100;

/// The default countdown, in seconds.
pub const DEFAULT_DURATION_SEC: u64 = 30;

/// The settings that are stored between runs.
#[derive(Clone, Debug)]
pub struct Config {
    /// The target point in physical screen pixels, once one was picked.
    pub point: Option<(i32, i32)>,
    /// The time between two clicks, in milliseconds.
    pub interval_ms: u64,
    /// The countdown after which clicking stops, in seconds; 0 means no limit.
    pub duration_sec: u64,
    /// The stored name of the click mode.
    pub mode: String,
}

impl Default for Config {
    fn default() -> (c: Config)
        ensures
            c.point is None,
            c.interval_ms == DEFAULT_INTERVAL_MS,
            c.duration_sec == DEFAULT_DURATION_SEC,
            c.mode@ == mode_name(ClickMode::Universal),
    {
        Config {
            point: None,
            interval_ms: DEFAULT_INTERVAL_MS,
            duration_sec: DEFAULT_DURATION_SEC,
            mode: ClickMode::Universal.name().to_owned(),
        }
    }
}

} // verus!
