//! Placement of grains in the output buffer.
//!
//! Grain counts, lengths and jitter amounts are drawn in floating point by the
//! synthesis code; the integer placement that keeps every grain inside the
//! buffer is here.

use vstd::prelude::*;

verus! {

/// Start of a grain: the nominal start moved back by half the jitter range
/// and forward by the drawn jitter (both saturating), then pulled back so the
/// grain ends inside the buffer.
pub open spec fn placed_start(
    nominal_start: usize,
    jitter_range: usize,
    jitter: usize,
    n_samples: usize,
    length: usize,
) -> int {
    let moved_back = if nominal_start >= jitter_range / 2 {
        nominal_start - jitter_range / 2
    } else {
        0
    };
    let moved = if moved_back + jitter > usize::MAX {
        usize::MAX as int
    } else {
        moved_back + jitter
    };
    let latest = if n_samples >= length {
        n_samples - length
    } else {
        0
    };
    if moved < latest {
        moved
    } else {
        latest
    }
}

/// Where a grain of `length` samples starts in a buffer of `n_samples`.
pub fn grain_start(
    nominal_start: usize,
    jitter_range: usize,
    jitter: usize,
    n_samples: usize,
    length: usize,
) -> (start: usize)
    ensures
        start == placed_start(nominal_start, jitter_range, jitter, n_samples, length),
        length <= n_samples ==> start + length <= n_samples,
{
    let latest = n_samples.saturating_sub(length);
    let moved = nominal_start.saturating_sub(jitter_range / 2).saturating_add(jitter);
    if moved < latest {
        moved
    } else {
        latest
    }
}

/// A grain starts at its jittered position (the nominal start moved back by
/// half the jitter range, not below zero, then forward by the jitter, not past
/// the largest index) whenever the grain fits there; otherwise it starts as
/// late as it still fits, at the beginning when it is longer than the buffer.
/// It never starts after its jittered position.
pub proof fn grain_starts_at_jittered_position_when_it_fits(
    nominal_start: usize,
    jitter_range: usize,
    jitter: usize,
    n_samples: usize,
    length: usize,
)
    ensures
        ({
            let back: int = if nominal_start >= jitter_range / 2 {
                nominal_start - jitter_range / 2
            } else {
                0
            };
            let jittered: int = if back + jitter <= usize::MAX {
                back + jitter
            } else {
                usize::MAX as int
            };
            let start = placed_start(nominal_start, jitter_range, jitter, n_samples, length);
            &&& start <= jittered
            &&& jittered + length <= n_samples ==> start == jittered
            &&& length <= n_samples && jittered + length > n_samples ==> start == n_samples - length
            &&& length > n_samples ==> start == 0
            &&& length <= n_samples ==> start + length <= n_samples
        }),
{
}

} // verus!
