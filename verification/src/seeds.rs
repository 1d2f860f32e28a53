//! Seeds drawn from the wall clock.
//!
//! The shell reads the time since the Unix epoch; a clock set before the epoch
//! gives no reading and a fixed fallback seed is used.

use vstd::prelude::*;

verus! {

/// Fallback seed of the desktop shell.
pub const DESKTOP_FALLBACK_SEED: u64 = 0xc0ff_eeee_c0ff_eeee;

/// Fallback seed of the command-line tool.
pub const CLI_FALLBACK_SEED: u64 = 0xdead_beef_dead_beef;

/// Seed from nanoseconds since the epoch: their low 64 bits, or `fallback`
/// when the clock gave no reading.
pub open spec fn clock_seed(elapsed_nanos: Option<u128>, fallback: u64) -> u64 {
    match elapsed_nanos {
        Some(nanos) => (nanos % 0x1_0000_0000_0000_0000) as u64,
        None => fallback,
    }
}

fn low_bits(nanos: u128) -> (low: u64)
    ensures
        low == nanos % 0x1_0000_0000_0000_0000,
{
    let low = #[verifier::truncate] (nanos as u64);
    assert(low == nanos % 0x1_0000_0000_0000_0000) by (bit_vector)
        requires
            low == nanos as u64,
    ;
    low
}

/// The desktop shell's seed for automatic fires and rolled manual seeds.
pub fn seed_now(elapsed_nanos: Option<u128>) -> (seed: u64)
    ensures
        seed == clock_seed(elapsed_nanos, DESKTOP_FALLBACK_SEED),
{
    match elapsed_nanos {
        Some(nanos) => low_bits(nanos),
        None => DESKTOP_FALLBACK_SEED,
    }
}

/// The command-line tool's seed when none is given.
pub fn time_seed(elapsed_nanos: Option<u128>) -> (seed: u64)
    ensures
        seed == clock_seed(elapsed_nanos, CLI_FALLBACK_SEED),
{
    match elapsed_nanos {
        Some(nanos) => low_bits(nanos),
        None => CLI_FALLBACK_SEED,
    }
}

/// A clock reading that fits in 64 bits is the seed itself; a larger one keeps
/// its low 64 bits, so readings a multiple of 2^64 apart give the same seed; no
/// reading gives the fallback.
pub proof fn clock_seed_is_the_reading(nanos: u128, other: u128, fallback: u64)
    ensures
        nanos <= u64::MAX ==> clock_seed(Some(nanos), fallback) == nanos,
        nanos + 0x1_0000_0000_0000_0000 == other ==> clock_seed(Some(nanos), fallback)
            == clock_seed(Some(other), fallback),
        clock_seed(None, fallback) == fallback,
{
}

} // verus!
