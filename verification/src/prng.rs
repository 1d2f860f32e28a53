//! Mulberry32: a seedable, deterministic 32-bit generator.
//!
//! Every function of the library that reads randomness takes `&mut Mulberry32`;
//! there is no global generator.

use vstd::prelude::*;

verus! {

/// Weyl increment added to the state on every draw.
pub const MULBERRY_INCREMENT: u32 = 0x6D2B_79F5;

/// State used in place of the degenerate zero state.
pub const ZERO_SEED_REPLACEMENT: u32 = 0x9E37_79B9;

/// Low and high halves of a 64-bit seed folded together by xor.
pub open spec fn fold_seed(seed: u64) -> u32 {
    (seed as u32) ^ ((seed >> 32u64) as u32)
}

/// State of a generator freshly built from `seed`.
pub open spec fn initial_state(seed: u64) -> u32 {
    let folded = fold_seed(seed);
    if folded == 0 {
        ZERO_SEED_REPLACEMENT
    } else {
        folded
    }
}

/// One step of the state: a wrapping add of the Weyl increment.
pub open spec fn advance(state: u32) -> u32 {
    state.wrapping_add(MULBERRY_INCREMENT)
}

/// The output mixing function applied to an advanced state.
pub open spec fn mix(state: u32) -> u32 {
    let t1 = (state ^ (state >> 15u32)).wrapping_mul(state | 1u32);
    let t2 = t1 ^ t1.wrapping_add((t1 ^ (t1 >> 7u32)).wrapping_mul(t1 | 61u32));
    t2 ^ (t2 >> 14u32)
}

/// State after `steps` draws from a generator seeded with `seed`.
pub open spec fn state_after(seed: u64, steps: nat) -> u32
    decreases steps,
{
    if steps == 0 {
        initial_state(seed)
    } else {
        advance(state_after(seed, (steps - 1) as nat))
    }
}

/// The first `n` outputs of a generator seeded with `seed`.
pub open spec fn stream(seed: u64, n: nat) -> Seq<u32>
    decreases n,
{
    if n == 0 {
        Seq::empty()
    } else {
        stream(seed, (n - 1) as nat).push(mix(state_after(seed, n)))
    }
}

/// Seedable, deterministic generator. Same seed, same sequence, on any platform.
#[derive(Clone, Debug)]
pub struct Mulberry32 {
    state: u32,
}

impl View for Mulberry32 {
    type V = u32;

    closed spec fn view(&self) -> u32 {
        self.state
    }
}

impl Mulberry32 {
    /// Seed from any `u64`. The low and high 32 bits are xor-folded so that seeds
    /// that differ only in their upper bits still give distinct streams; a folded
    /// zero is replaced by a fixed non-zero state.
    pub fn new(seed: u64) -> (generator: Self)
        ensures
            generator@ == initial_state(seed),
            generator@ != 0,
    {
        let folded = (seed as u32) ^ ((seed >> 32) as u32);
        let state = if folded == 0 {
            ZERO_SEED_REPLACEMENT
        } else {
            folded
        };
        Mulberry32 { state }
    }

    /// Raw 32-bit output: advance the state, then mix it.
    pub fn next_u32(&mut self) -> (value: u32)
        ensures
            final(self)@ == advance(old(self)@),
            value == mix(final(self)@),
    {
        self.state = self.state.wrapping_add(MULBERRY_INCREMENT);
        let mut t = self.state;
        t = (t ^ (t >> 15)).wrapping_mul(t | 1);
        t ^= t.wrapping_add((t ^ (t >> 7)).wrapping_mul(t | 61));
        t ^ (t >> 14)
    }
}

/// Two seeds with equal low halves and different high halves give different
/// starting states, except for the one pair where a folded zero meets the
/// replacement state.
pub proof fn upper_bits_change_the_start(a: u64, b: u64)
    requires
        a as u32 == b as u32,
        (a >> 32u64) as u32 != (b >> 32u64) as u32,
        !(fold_seed(a) == 0 && fold_seed(b) == ZERO_SEED_REPLACEMENT),
        !(fold_seed(b) == 0 && fold_seed(a) == ZERO_SEED_REPLACEMENT),
    ensures
        initial_state(a) != initial_state(b),
{
    assert(fold_seed(a) != fold_seed(b)) by (bit_vector)
        requires
            a as u32 == b as u32,
            (a >> 32u64) as u32 != (b >> 32u64) as u32,
    ;
}

/// Advancing the state is injective.
pub proof fn advance_is_injective(x: u32, y: u32)
    ensures
        advance(x) == advance(y) ==> x == y,
{
    assert(x.wrapping_add(MULBERRY_INCREMENT) == y.wrapping_add(MULBERRY_INCREMENT) ==> x == y)
        by (bit_vector);
}

/// Generators that start apart stay apart: their states differ after any
/// number of draws.
pub proof fn distinct_starts_never_meet(a: u64, b: u64, steps: nat)
    requires
        initial_state(a) != initial_state(b),
    ensures
        state_after(a, steps) != state_after(b, steps),
    decreases steps,
{
    if steps > 0 {
        distinct_starts_never_meet(a, b, (steps - 1) as nat);
        advance_is_injective(state_after(a, (steps - 1) as nat), state_after(b, (steps - 1) as nat));
    }
}

/// The output stream depends on nothing but the starting state: seeds with the
/// same starting state give the same outputs, draw for draw.
pub proof fn stream_depends_only_on_start(a: u64, b: u64, n: nat)
    requires
        initial_state(a) == initial_state(b),
    ensures
        stream(a, n) == stream(b, n),
    decreases n,
{
    if n > 0 {
        stream_depends_only_on_start(a, b, (n - 1) as nat);
        states_agree(a, b, n);
    }
}

proof fn states_agree(a: u64, b: u64, steps: nat)
    requires
        initial_state(a) == initial_state(b),
    ensures
        state_after(a, steps) == state_after(b, steps),
    decreases steps,
{
    if steps > 0 {
        states_agree(a, b, (steps - 1) as nat);
    }
}

} // verus!
