//! Health monitor: derives the `is_healthy` signal from the liveness
//! inputs and schedules periodic heartbeat reports.

use vstd::prelude::*;

verus! {

/// Staleness threshold for the actuator control loop, in milliseconds.
/// The control loop ticks every 100 ms; if no tick has landed for two
/// seconds, the loop is considered stalled.
pub const TICK_STALE_MS: u64 = 2000;

/// Interval between heartbeat reports, in milliseconds.
pub const HEARTBEAT_INTERVAL_MS: u64 = 60000;

/// The controller is healthy iff the protocol engine reports the reader
/// online and the actuator control loop has ticked recently.
pub open spec fn spec_is_healthy(pd_online: bool, last_tick_ms: u64, now_ms: u64) -> bool {
    &&& pd_online
    &&& now_ms - last_tick_ms < TICK_STALE_MS
}

/// Computes the heartbeat health signal from the two liveness inputs:
/// the protocol engine's online flag and the time of the last actuator
/// control-loop tick.
pub fn is_healthy(pd_online: bool, last_tick_ms: u64, now_ms: u64) -> (r: bool)
    requires
        last_tick_ms <= now_ms,
    ensures
        r == spec_is_healthy(pd_online, last_tick_ms, now_ms),
{
    pd_online && now_ms - last_tick_ms < TICK_STALE_MS
}

/// Decides whether a heartbeat is due at `now_ms`: once the previous
/// deadline has passed, reports the next deadline, one interval from
/// now.
pub fn heartbeat_due(next_heartbeat_ms: u64, now_ms: u64) -> (r: Option<u64>)
    requires
        now_ms + HEARTBEAT_INTERVAL_MS <= u64::MAX,
    ensures
        match r {
            Some(next) => next_heartbeat_ms < now_ms && next == now_ms + HEARTBEAT_INTERVAL_MS,
            None => next_heartbeat_ms >= now_ms,
        },
{
    if next_heartbeat_ms < now_ms {
        Some(now_ms + HEARTBEAT_INTERVAL_MS)
    } else {
        None
    }
}

} // verus!
