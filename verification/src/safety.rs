//! Hard constraints that protect the speaker driver and the listener.
//!
//! The decibel caps and filter corners are floating point and live with the
//! synthesis code; the integer limits are here.

use vstd::prelude::*;

verus! {

/// Default sample rate.
pub const SAMPLE_RATE_HZ: u32 = 48_000;

/// Longest single event, in milliseconds.
pub const MAX_SESSION_MS: u32 = 30_000;

/// Shortest pause between two events, in milliseconds; the pressure state
/// machine never re-fires sooner.
pub const MIN_COOLDOWN_MS: u32 = 60_000;

/// Shortest event the parameter clamp lets through, in milliseconds.
pub const MIN_EVENT_MS: u32 = 50;

/// An event always ends before the cooldown that follows it is over.
pub proof fn session_ends_within_cooldown()
    ensures
        MAX_SESSION_MS < MIN_COOLDOWN_MS,
        MIN_EVENT_MS <= MAX_SESSION_MS,
{
}

/// `duration_ms` clamped to the accepted event length.
pub open spec fn clamped_duration(duration_ms: u32) -> u32 {
    if duration_ms < MIN_EVENT_MS {
        MIN_EVENT_MS
    } else if duration_ms > MAX_SESSION_MS {
        MAX_SESSION_MS
    } else {
        duration_ms
    }
}

/// Clamp an event duration into `50..=MAX_SESSION_MS` milliseconds.
pub fn clamp_duration_ms(duration_ms: u32) -> (clamped: u32)
    ensures
        clamped == clamped_duration(duration_ms),
        MIN_EVENT_MS <= clamped <= MAX_SESSION_MS,
{
    if duration_ms < MIN_EVENT_MS {
        MIN_EVENT_MS
    } else if duration_ms > MAX_SESSION_MS {
        MAX_SESSION_MS
    } else {
        duration_ms
    }
}

/// Durations already within `50..=MAX_SESSION_MS` pass unchanged; shorter ones
/// become 50 ms and longer ones the session limit.
pub proof fn clamping_keeps_valid_durations(duration_ms: u32)
    ensures
        50 <= duration_ms <= 30_000 ==> clamped_duration(duration_ms) == duration_ms,
        duration_ms < 50 ==> clamped_duration(duration_ms) == 50,
        duration_ms > 30_000 ==> clamped_duration(duration_ms) == 30_000,
{
}

} // verus!
