//! 16-bit mono PCM WAV encoding.
//!
//! Samples arrive already quantised to `i16` (the quantisation of floating
//! samples happens in the synthesis code); this module lays out the RIFF file.

use vstd::prelude::*;

verus! {

/// Size of the RIFF, format and data headers, in bytes.
pub const WAV_HEADER_LEN: usize = 44;

/// Little-endian bytes of a 16-bit value.
pub open spec fn le16(v: u16) -> Seq<u8> {
    seq![(v & 0xff) as u8, (v >> 8u16) as u8]
}

/// Little-endian bytes of a 32-bit value.
pub open spec fn le32(v: u32) -> Seq<u8> {
    seq![(v & 0xff) as u8, ((v >> 8u32) & 0xff) as u8, ((v >> 16u32) & 0xff) as u8, (v >> 24u32) as u8]
}

/// The 44-byte header of a mono 16-bit PCM file with `n_samples` samples at
/// `sample_rate_hz`.
pub open spec fn wav_header(n_samples: nat, sample_rate_hz: u32) -> Seq<u8> {
    seq![0x52u8, 0x49, 0x46, 0x46]  // "RIFF"
    + le32((36 + 2 * n_samples) as u32)
    + seq![0x57u8, 0x41, 0x56, 0x45]  // "WAVE"
    + seq![0x66u8, 0x6d, 0x74, 0x20]  // "fmt "
    + le32(16)
    + le16(1)  // PCM
    + le16(1)  // mono
    + le32(sample_rate_hz)
    + le32((2 * sample_rate_hz) as u32)  // byte rate
    + le16(2)  // block align
    + le16(16)  // bits per sample
    + seq![0x64u8, 0x61, 0x74, 0x61]  // "data"
    + le32((2 * n_samples) as u32)
}

/// The samples as little-endian two's-complement bytes.
pub open spec fn pcm_bytes(samples: Seq<i16>) -> Seq<u8>
    decreases samples.len(),
{
    if samples.len() == 0 {
        Seq::empty()
    } else {
        pcm_bytes(samples.drop_last()) + le16(samples.last() as u16)
    }
}

/// Each sample takes two bytes.
pub proof fn pcm_bytes_len(samples: Seq<i16>)
    ensures
        pcm_bytes(samples).len() == 2 * samples.len(),
    decreases samples.len(),
{
    if samples.len() > 0 {
        pcm_bytes_len(samples.drop_last());
    }
}

fn push_le16(out: &mut Vec<u8>, v: u16)
    ensures
        final(out)@ == old(out)@ + le16(v),
{
    out.push((v & 0xff) as u8);
    out.push((v >> 8) as u8);
}

fn push_le32(out: &mut Vec<u8>, v: u32)
    ensures
        final(out)@ == old(out)@ + le32(v),
{
    out.push((v & 0xff) as u8);
    out.push(((v >> 8) & 0xff) as u8);
    out.push(((v >> 16) & 0xff) as u8);
    out.push((v >> 24) as u8);
}

fn push_tag(out: &mut Vec<u8>, a: u8, b: u8, c: u8, d: u8)
    ensures
        final(out)@ == old(out)@ + seq![a, b, c, d],
{
    out.push(a);
    out.push(b);
    out.push(c);
    out.push(d);
}

/// A complete mono 16-bit PCM WAV file holding `samples` at `sample_rate_hz`.
pub fn wav_bytes(samples: &[i16], sample_rate_hz: u32) -> (bytes: Vec<u8>)
    requires
        36 + 2 * samples@.len() <= u32::MAX,
        2 * sample_rate_hz <= u32::MAX,
    ensures
        bytes@ == wav_header(samples@.len(), sample_rate_hz) + pcm_bytes(samples@),
        bytes@.len() == WAV_HEADER_LEN + 2 * samples@.len(),
{
    let n = samples.len();
    let data_len = (2 * n) as u32;
    let mut out: Vec<u8> = Vec::new();
    push_tag(&mut out, 0x52, 0x49, 0x46, 0x46);
    push_le32(&mut out, 36 + data_len);
    push_tag(&mut out, 0x57, 0x41, 0x56, 0x45);
    push_tag(&mut out, 0x66, 0x6d, 0x74, 0x20);
    push_le32(&mut out, 16);
    push_le16(&mut out, 1);
    push_le16(&mut out, 1);
    push_le32(&mut out, sample_rate_hz);
    push_le32(&mut out, 2 * sample_rate_hz);
    push_le16(&mut out, 2);
    push_le16(&mut out, 16);
    push_tag(&mut out, 0x64, 0x61, 0x74, 0x61);
    push_le32(&mut out, data_len);
    let ghost header = out@;
    assert(header == wav_header(samples@.len(), sample_rate_hz));
    let mut i: usize = 0;
    while i < n
        invariant
            n == samples@.len(),
            i <= n,
            header == wav_header(samples@.len(), sample_rate_hz),
            out@ == header + pcm_bytes(samples@.take(i as int)),
        decreases n - i,
    {
        push_le16(&mut out, samples[i] as u16);
        assert(samples@.take(i + 1).drop_last() == samples@.take(i as int));
        i += 1;
    }
    assert(samples@.take(n as int) == samples@);
    proof {
        pcm_bytes_len(samples@);
    }
    out
}

proof fn le16_digits(v: u16)
    ensures
        le16(v)[0] == v % 256,
        le16(v)[1] == v / 256,
{
    assert((v & 0xff) as u8 == v % 256 && (v >> 8u16) as u8 == v / 256) by (bit_vector);
}

proof fn le32_digits(v: u32)
    ensures
        le32(v)[0] == v % 256,
        le32(v)[1] == (v / 256) % 256,
        le32(v)[2] == (v / 65536) % 256,
        le32(v)[3] == v / 16777216,
{
    assert((v & 0xff) as u8 == v % 256 && ((v >> 8u32) & 0xff) as u8 == (v / 256) % 256 && ((v
        >> 16u32) & 0xff) as u8 == (v / 65536) % 256 && (v >> 24u32) as u8 == v / 16777216)
        by (bit_vector);
}

proof fn sample_as_unsigned(x: i16)
    ensures
        (x as u16) as int == if x < 0 {
            x + 65536
        } else {
            x as int
        },
{
    assert(x < 0 ==> (x as u16) as int == x + 65536) by (bit_vector);
    assert(x >= 0 ==> (x as u16) as int == x as int) by (bit_vector);
}

proof fn pcm_bytes_at(samples: Seq<i16>, i: int)
    requires
        0 <= i < samples.len(),
    ensures
        pcm_bytes(samples).len() == 2 * samples.len(),
        pcm_bytes(samples)[2 * i] == le16(samples[i] as u16)[0],
        pcm_bytes(samples)[2 * i + 1] == le16(samples[i] as u16)[1],
    decreases samples.len(),
{
    pcm_bytes_len(samples);
    pcm_bytes_len(samples.drop_last());
    if i < samples.len() - 1 {
        pcm_bytes_at(samples.drop_last(), i);
    }
}

/// A WAV file is 44 header bytes followed by two bytes per sample: it opens
/// with `RIFF`, its size field (bytes 4-7) is 36 plus the data length, it names
/// `WAVE` and `fmt `, the sample rate sits little-endian in bytes 24-27, the
/// `data` tag in bytes 36-39 and the data length (two bytes per sample) in
/// bytes 40-43; sample `i` sits at bytes `44 + 2i` (low byte) and `45 + 2i`
/// (high byte) in two's complement, whatever its sign.
pub proof fn wav_is_little_endian_pcm16(samples: Seq<i16>, sample_rate_hz: u32, i: int)
    requires
        36 + 2 * samples.len() <= u32::MAX,
        0 <= i < samples.len(),
    ensures
        ({
            let bytes = wav_header(samples.len(), sample_rate_hz) + pcm_bytes(samples);
            let data_len = 2 * samples.len();
            let unsigned: int = if samples[i] < 0 {
                samples[i] + 65536
            } else {
                samples[i] as int
            };
            &&& bytes.len() == 44 + 2 * samples.len()
            &&& bytes[0] == 0x52 && bytes[1] == 0x49 && bytes[2] == 0x46 && bytes[3] == 0x46
            &&& bytes[4] == (36 + data_len) % 256 && bytes[5] == ((36 + data_len) / 256) % 256
                && bytes[6] == ((36 + data_len) / 65536) % 256 && bytes[7] == (36 + data_len)
                / 16777216
            &&& bytes[8] == 0x57 && bytes[9] == 0x41 && bytes[10] == 0x56 && bytes[11] == 0x45
            &&& bytes[12] == 0x66 && bytes[13] == 0x6d && bytes[14] == 0x74 && bytes[15] == 0x20
            &&& bytes[24] == sample_rate_hz % 256 && bytes[25] == (sample_rate_hz / 256) % 256
                && bytes[26] == (sample_rate_hz / 65536) % 256 && bytes[27] == sample_rate_hz
                / 16777216
            &&& bytes[36] == 0x64 && bytes[37] == 0x61 && bytes[38] == 0x74 && bytes[39] == 0x61
            &&& bytes[40] == data_len % 256 && bytes[41] == (data_len / 256) % 256 && bytes[42]
                == (data_len / 65536) % 256 && bytes[43] == data_len / 16777216
            &&& bytes[44 + 2 * i] == unsigned % 256
            &&& bytes[45 + 2 * i] == unsigned / 256
        }),
{
    let n = samples.len();
    let header = wav_header(n, sample_rate_hz);
    let bytes = header + pcm_bytes(samples);
    le32_digits((36 + 2 * n) as u32);
    le32_digits(sample_rate_hz);
    le32_digits((2 * n) as u32);
    le16_digits(samples[i] as u16);
    sample_as_unsigned(samples[i]);
    pcm_bytes_at(samples, i);
    assert(header.len() == 44);
    assert(bytes[44 + 2 * i] == pcm_bytes(samples)[2 * i]);
    assert(bytes[45 + 2 * i] == pcm_bytes(samples)[2 * i + 1]);
}

} // verus!
