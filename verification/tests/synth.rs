use flatus::grain::grain_start;
use flatus::playback::feed_mono_to_interleaved;
use flatus::safety::{clamp_duration_ms, MAX_SESSION_MS, MIN_COOLDOWN_MS, SAMPLE_RATE_HZ};
use flatus::seeds::{seed_now, time_seed};
use flatus::wav::wav_bytes;

#[test]
fn render_references_safety_constants() {
    let _ = SAMPLE_RATE_HZ;
    let _ = MAX_SESSION_MS;
    let _ = MIN_COOLDOWN_MS;
}

#[test]
fn session_limits_are_consistent() {
    assert_eq!(SAMPLE_RATE_HZ, 48_000);
    assert!(MAX_SESSION_MS < MIN_COOLDOWN_MS);
}

#[test]
fn durations_clamp_into_the_session_window() {
    assert_eq!(clamp_duration_ms(0), 50);
    assert_eq!(clamp_duration_ms(600), 600);
    assert_eq!(clamp_duration_ms(45_000), 30_000);
}

#[test]
fn grains_stay_inside_the_buffer() {
    assert_eq!(grain_start(1000, 200, 50, 24_000, 500), 950);
    assert_eq!(grain_start(23_900, 200, 150, 24_000, 500), 23_500);
    assert_eq!(grain_start(10, 200, 0, 24_000, 500), 0);
    assert_eq!(grain_start(usize::MAX, 0, 5, 24_000, 24_000), 0);
    for nominal in (0..24_000).step_by(997) {
        for length in [1usize, 100, 12_000, 24_000] {
            let start = grain_start(nominal, 300, 299, 24_000, length);
            assert!(start + length <= 24_000, "grain past end of buffer");
        }
    }
}

#[test]
fn clock_seeds_take_low_bits_or_fall_back() {
    assert_eq!(seed_now(None), 0xc0ff_eeee_c0ff_eeee);
    assert_eq!(time_seed(None), 0xdead_beef_dead_beef);
    assert_eq!(seed_now(Some(5)), 5);
    assert_eq!(time_seed(Some((3u128 << 64) | 9)), 9);
}

#[test]
fn mono_fills_every_channel_then_silence() {
    let mono = [1.0_f32, 2.0, 3.0];
    let mut cursor = 1;
    let mut out = [9.0_f32; 7];
    feed_mono_to_interleaved(&mono, &mut cursor, 2, &mut out, 0.0);
    assert_eq!(out, [2.0, 2.0, 3.0, 3.0, 0.0, 0.0, 0.0]);
    assert_eq!(cursor, 3);

    let mut cursor = 0;
    let mut out = [0i16; 5];
    feed_mono_to_interleaved(&[4i16, 5, 6, 7], &mut cursor, 3, &mut out, 0);
    assert_eq!(out, [4, 4, 4, 5, 5]);
    assert_eq!(cursor, 2);
}

#[test]
fn wav_layout_is_riff_pcm16_mono() {
    let bytes = wav_bytes(&[1, -1, 0x1234], 48_000);
    assert_eq!(bytes.len(), 44 + 6);
    assert_eq!(&bytes[0..4], b"RIFF");
    assert_eq!(&bytes[4..8], &(36u32 + 6).to_le_bytes());
    assert_eq!(&bytes[8..16], b"WAVEfmt ");
    assert_eq!(&bytes[16..20], &16u32.to_le_bytes());
    assert_eq!(&bytes[20..24], &[1, 0, 1, 0]);
    assert_eq!(&bytes[24..28], &48_000u32.to_le_bytes());
    assert_eq!(&bytes[28..32], &96_000u32.to_le_bytes());
    assert_eq!(&bytes[32..36], &[2, 0, 16, 0]);
    assert_eq!(&bytes[36..40], b"data");
    assert_eq!(&bytes[40..44], &6u32.to_le_bytes());
    assert_eq!(&bytes[44..], &[1, 0, 0xff, 0xff, 0x34, 0x12]);
}
