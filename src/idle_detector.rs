use vstd::prelude::*;

verus! {

/// Failures of the idle-time probe.
#[derive(Debug, Clone, Copy, PartialEq, Eq)]
pub enum IdleDetectorError {
    GetLastInputFailed,
}

/// Decides whether the user has been away from the keyboard and mouse.
#[derive(Debug, Clone, Copy)]
pub struct IdleDetector;

/// Milliseconds since the last input, given the tick counter now and at the
/// last input; a counter that went backwards counts as no time.
pub open spec fn idle_millis(now_tick: u64, last_input_tick: u64) -> u64 {
    if now_tick >= last_input_tick {
        (now_tick - last_input_tick) as u64
    } else {
        0
    }
}

impl IdleDetector {
    pub fn new() -> (r: Result<IdleDetector, IdleDetectorError>)
        ensures
            r is Ok,
    {
        Ok(IdleDetector)
    }

    /// Idle means that at least `threshold_millis` have passed since the last
    /// input.
    pub fn is_idle(&self, now_tick: u64, last_input_tick: u64, threshold_millis: u64) -> (r: bool)
        ensures
            r == (idle_millis(now_tick, last_input_tick) >= threshold_millis),
    {
        let idle = if now_tick >= last_input_tick {
            now_tick - last_input_tick
        } else {
            0
        };
        idle >= threshold_millis
    }
}

} // verus!
