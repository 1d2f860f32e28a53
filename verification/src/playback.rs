//! Spreading a mono buffer over an interleaved multi-channel output.

use vstd::prelude::*;
use vstd::arithmetic::div_mod::lemma_fundamental_div_mod_converse;

verus! {

/// The sample that frame `frame` of an output gets when playback stands at
/// `cursor`: the next unplayed mono sample, or `silence` once they run out.
pub open spec fn frame_sample<T>(mono: Seq<T>, cursor: int, frame: int, silence: T) -> T {
    if cursor + frame < mono.len() {
        mono[cursor + frame]
    } else {
        silence
    }
}

/// Number of frames, the last possibly partial, in `len` interleaved samples.
pub open spec fn frame_count(len: int, channels: int) -> int {
    (len + channels - 1) / channels
}

/// Where playback stands after `frames` frames from `cursor`.
pub open spec fn cursor_after(mono_len: int, cursor: int, frames: int) -> int {
    if cursor >= mono_len {
        cursor
    } else if cursor + frames < mono_len {
        cursor + frames
    } else {
        mono_len
    }
}

/// Fill `out`, frame by frame of `channels` samples (the last frame may be
/// partial), with the mono samples from `cursor` on, each duplicated across the
/// frame; frames past the end of `mono` get `silence`. `cursor` advances by one
/// per frame that took a sample.
pub fn feed_mono_to_interleaved<T: Copy>(
    mono: &[T],
    cursor: &mut usize,
    channels: usize,
    out: &mut [T],
    silence: T,
)
    requires
        channels > 0,
    ensures
        final(out)@.len() == old(out)@.len(),
        forall|k: int|
            0 <= k < old(out)@.len() ==> #[trigger] final(out)@[k] == frame_sample(
                mono@,
                *old(cursor) as int,
                k / channels as int,
                silence,
            ),
        *final(cursor) == cursor_after(
            mono@.len() as int,
            *old(cursor) as int,
            frame_count(old(out)@.len() as int, channels as int),
        ),
{
    let ghost start_cursor = *cursor as int;
    let ghost ch = channels as int;
    let len = out.len();
    let mut start: usize = 0;
    let ghost mut frame: int = 0;
    while start < len
        invariant
            channels > 0,
            ch == channels,
            len == out@.len(),
            0 <= frame,
            start <= len,
            start < len ==> start == frame * ch,
            start == len ==> len <= frame * ch && (frame == 0 || (frame - 1) * ch < len),
            *cursor == cursor_after(mono@.len() as int, start_cursor, frame),
            forall|k: int|
                0 <= k < start ==> #[trigger] out@[k] == frame_sample(
                    mono@,
                    start_cursor,
                    k / ch,
                    silence,
                ),
        decreases len - start,
    {
        let sample = if *cursor < mono.len() {
            let value = mono[*cursor];
            *cursor += 1;
            value
        } else {
            silence
        };
        assert(sample == frame_sample(mono@, start_cursor, frame, silence));
        let stop = if len - start < channels {
            len
        } else {
            start + channels
        };
        let mut j = start;
        while j < stop
            invariant
                channels > 0,
                ch == channels,
                len == out@.len(),
                start == frame * ch,
                start <= j <= stop <= len,
                stop <= start + ch,
                forall|k: int|
                    0 <= k < j ==> #[trigger] out@[k] == (if k < start {
                        frame_sample(mono@, start_cursor, k / ch, silence)
                    } else {
                        sample
                    }),
            decreases stop - j,
        {
            out[j] = sample;
            j += 1;
        }
        assert forall|k: int| 0 <= k < stop implies #[trigger] out@[k] == frame_sample(
            mono@,
            start_cursor,
            k / ch,
            silence,
        ) by {
            if k >= start {
                lemma_fundamental_div_mod_converse(k, ch, frame, k - start);
            }
        }
        assert((frame + 1) * ch == frame * ch + ch) by (nonlinear_arith);
        start = stop;
        proof {
            frame = frame + 1;
        }
    }
    proof {
        if len > 0 {
            assert((frame - 1) * ch == frame * ch - ch) by (nonlinear_arith);
            lemma_fundamental_div_mod_converse(
                len + ch - 1,
                ch,
                frame,
                len + ch - 1 - frame * ch,
            );
        } else {
            lemma_fundamental_div_mod_converse(ch - 1, ch, 0, ch - 1);
        }
    }
}

/// Playback never moves backwards: the cursor does not decrease, a call that
/// starts at or past the end of the mono buffer leaves it where it is, one that
/// starts before the end never takes it past the end, and it advances by one
/// per frame while samples remain.
pub proof fn cursor_only_moves_forward(mono_len: nat, cursor: nat, frames: nat)
    ensures
        cursor_after(mono_len as int, cursor as int, frames as int) >= cursor,
        cursor >= mono_len ==> cursor_after(mono_len as int, cursor as int, frames as int)
            == cursor,
        cursor < mono_len ==> cursor_after(mono_len as int, cursor as int, frames as int)
            <= mono_len,
        cursor + frames <= mono_len ==> cursor_after(mono_len as int, cursor as int, frames as int)
            == cursor + frames,
        cursor < mono_len && cursor + frames > mono_len ==> cursor_after(
            mono_len as int,
            cursor as int,
            frames as int,
        ) == mono_len,
{
}

/// Each output sample repeats the mono sample of its frame: frame `f` plays the
/// sample `f` places after the cursor while there is one, and silence after.
pub proof fn frames_play_consecutive_samples<T>(mono: Seq<T>, cursor: nat, frame: nat, silence: T)
    ensures
        cursor + frame < mono.len() ==> frame_sample(mono, cursor as int, frame as int, silence)
            == mono[cursor + frame as int],
        cursor + frame >= mono.len() ==> frame_sample(mono, cursor as int, frame as int, silence)
            == silence,
{
}

/// The frame count covers the output with frames of `channels` samples, the last
/// possibly partial: enough frames to hold every sample, and no empty frame.
pub proof fn frames_cover_the_output(len: nat, channels: nat)
    requires
        channels > 0,
    ensures
        frame_count(len as int, channels as int) * channels >= len,
        len > 0 ==> (frame_count(len as int, channels as int) - 1) * channels < len,
        len == 0 ==> frame_count(len as int, channels as int) == 0,
{
    let x = len + channels - 1;
    let q = x / channels as int;
    let r = x % channels as int;
    vstd::arithmetic::div_mod::lemma_fundamental_div_mod(x, channels as int);
    assert(0 <= r < channels) by {
        vstd::arithmetic::div_mod::lemma_mod_bound(x, channels as int);
    }
    assert(x == channels * q + r);
    assert(q * channels == channels * q) by (nonlinear_arith);
    assert((q - 1) * channels == q * channels - channels) by (nonlinear_arith);
    if len == 0 {
        vstd::arithmetic::div_mod::lemma_fundamental_div_mod_converse(
            channels - 1,
            channels as int,
            0,
            channels - 1,
        );
    }
}

} // verus!
