//! Audio encoding — every sound of the game is synthesized at startup and
//! handed to the mixer as an in-memory 16-bit mono PCM WAV file, so the
//! game ships no binary assets. This module owns the container format.

use vstd::prelude::*;

verus! {

/// Sample rate of every synthesized sound (Hz).
pub const RATE: u32 = 22_050;

/// Little-endian encoding of the low 16 bits of `x`.
pub open spec fn le16(x: nat) -> Seq<u8> {
    seq![(x % 256) as u8, ((x / 256) % 256) as u8]
}

/// Little-endian encoding of the low 32 bits of `x`.
pub open spec fn le32(x: nat) -> Seq<u8> {
    seq![
        (x % 256) as u8,
        ((x / 0x100) % 256) as u8,
        ((x / 0x1_0000) % 256) as u8,
        ((x / 0x100_0000) % 256) as u8,
    ]
}

/// Four ASCII bytes of a RIFF chunk tag.
pub open spec fn tag(a: u8, b: u8, c: u8, d: u8) -> Seq<u8> {
    seq![a, b, c, d]
}

/// Two's-complement bit pattern of a sample, as an unsigned 16-bit value.
pub open spec fn sample_bits(s: i16) -> nat {
    if s >= 0 {
        s as nat
    } else {
        (s + 0x1_0000) as nat
    }
}

/// The signed sample whose two's-complement bytes are `lo`, `hi`.
pub open spec fn decode_sample(lo: u8, hi: u8) -> int {
    let v = lo + 256 * hi;
    if v < 0x8000 {
        v
    } else {
        v - 0x1_0000
    }
}

/// Unsigned little-endian value of the four bytes at `off`.
pub open spec fn read_le32(bytes: Seq<u8>, off: int) -> nat {
    (bytes[off] + 0x100 * bytes[off + 1] + 0x1_0000 * bytes[off + 2] + 0x100_0000 * bytes[
        off + 3
    ]) as nat
}

/// The sample data chunk: each sample as two little-endian bytes.
pub open spec fn pcm16(samples: Seq<i16>) -> Seq<u8> {
    Seq::new(
        2 * samples.len(),
        |j: int|
            if j % 2 == 0 {
                (sample_bits(samples[j / 2]) % 256) as u8
            } else {
                (sample_bits(samples[j / 2]) / 256) as u8
            },
    )
}

/// Length field of the data chunk for `n` samples: two bytes per sample,
/// kept to the 32 bits the field holds.
pub open spec fn data_len_field(n: nat) -> nat {
    (2 * n) % 0x1_0000_0000
}

/// The 44-byte canonical header of a 16-bit mono PCM WAV of `n` samples:
/// RIFF chunk (size = 36 + data length), `fmt ` chunk (PCM, one channel,
/// `RATE` Hz, byte rate `2 * RATE`, block align 2, 16 bits), then the
/// `data` chunk header.
pub open spec fn wav_header(n: nat) -> Seq<u8> {
    tag(0x52, 0x49, 0x46, 0x46)  // "RIFF"
    + le32(36 + data_len_field(n)) + tag(0x57, 0x41, 0x56, 0x45)  // "WAVE"
    + tag(0x66, 0x6d, 0x74, 0x20)  // "fmt "
    + le32(16) + le16(1) + le16(1) + le32(RATE as nat) + le32(2 * (RATE as nat)) + le16(2) + le16(16)
        + tag(0x64, 0x61, 0x74, 0x61)  // "data"
    + le32(data_len_field(n))
}

/// The fixed `fmt ` chunk (bytes 12..36 of every file): tag, chunk size
/// 16, PCM format 1, one channel, 22 050 Hz, byte rate 44 100, block
/// align 2, 16 bits per sample.
pub open spec fn fmt_chunk() -> Seq<u8> {
    seq![
        0x66u8, 0x6d, 0x74, 0x20,
        16, 0, 0, 0,
        1, 0,
        1, 0,
        0x22, 0x56, 0, 0,
        0x44, 0xAC, 0, 0,
        2, 0,
        16, 0,
    ]
}

/// A complete WAV file holding `samples`.
pub open spec fn wav_bytes(samples: Seq<i16>) -> Seq<u8> {
    wav_header(samples.len()) + pcm16(samples)
}

fn push_le16(out: &mut Vec<u8>, x: u16)
    ensures
        final(out)@ == old(out)@ + le16(x as nat),
{
    out.push((x % 256) as u8);
    out.push((x / 256) as u8);
    assert(final(out)@ =~= old(out)@ + le16(x as nat));
}

fn push_le32(out: &mut Vec<u8>, x: u32)
    ensures
        final(out)@ == old(out)@ + le32(x as nat),
{
    out.push((x % 256) as u8);
    out.push(((x / 0x100) % 256) as u8);
    out.push(((x / 0x1_0000) % 256) as u8);
    out.push((x / 0x100_0000) as u8);
    assert(final(out)@ =~= old(out)@ + le32(x as nat));
}

fn push_tag(out: &mut Vec<u8>, a: u8, b: u8, c: u8, d: u8)
    ensures
        final(out)@ == old(out)@ + tag(a, b, c, d),
{
    out.push(a);
    out.push(b);
    out.push(c);
    out.push(d);
    assert(final(out)@ =~= old(out)@ + tag(a, b, c, d));
}

/// 16-bit mono PCM WAV header + samples.
///
/// The two length fields hold the data size truncated to 32 bits, as the
/// format's fields are 32 bits wide. The buffer is allocated up front, so
/// its size must be a valid allocation (at most `isize::MAX` bytes).
pub fn wav(samples: &[i16]) -> (out: Vec<u8>)
    requires
        44 + 2 * samples@.len() <= isize::MAX,
        36 + data_len_field(samples@.len()) <= u32::MAX,
    ensures
        out@ == wav_bytes(samples@),
        out@.len() == 44 + 2 * samples@.len(),
        out@.subrange(12, 36) == fmt_chunk(),
        out@[24] + 0x100 * out@[25] + 0x1_0000 * out@[26] + 0x100_0000 * out@[27] == 22_050,
        out@[28] + 0x100 * out@[29] + 0x1_0000 * out@[30] + 0x100_0000 * out@[31] == 44_100,
        out@[4] + 0x100 * out@[5] + 0x1_0000 * out@[6] + 0x100_0000 * out@[7] == 36 + (2
            * samples@.len()) % 0x1_0000_0000,
        out@[40] + 0x100 * out@[41] + 0x1_0000 * out@[42] + 0x100_0000 * out@[43] == (2
            * samples@.len()) % 0x1_0000_0000,
        forall|i: int|
            0 <= i < samples@.len() ==> out@[44 + 2 * i] + 0x100 * out@[45 + 2 * i] == if samples@[i]
                >= 0 {
                samples@[i] as int
            } else {
                samples@[i] + 0x1_0000
            },
{
    let data_len = samples.len() * 2;
    let data_len64 = data_len as u64;
    let data_len32 = data_len64 as u32;
    proof {
        assert(data_len64 as u32 == data_len64 % 0x1_0000_0000) by (bit_vector);
    }
    let mut out: Vec<u8> = Vec::with_capacity(44 + data_len);
    push_tag(&mut out, 0x52, 0x49, 0x46, 0x46);
    push_le32(&mut out, 36 + data_len32);
    push_tag(&mut out, 0x57, 0x41, 0x56, 0x45);
    push_tag(&mut out, 0x66, 0x6d, 0x74, 0x20);
    push_le32(&mut out, 16);
    push_le16(&mut out, 1);  // PCM
    push_le16(&mut out, 1);  // mono
    push_le32(&mut out, RATE);
    push_le32(&mut out, RATE * 2);  // byte rate
    push_le16(&mut out, 2);  // block align
    push_le16(&mut out, 16);  // bits
    push_tag(&mut out, 0x64, 0x61, 0x74, 0x61);
    push_le32(&mut out, data_len32);
    let ghost header = out@;
    assert(header =~= wav_header(samples@.len()));
    let mut i: usize = 0;
    while i < samples.len()
        invariant
            i <= samples@.len(),
            header == wav_header(samples@.len()),
            out@ == header + pcm16(samples@.take(i as int)),
        decreases samples@.len() - i,
    {
        let s = samples[i];
        let bits: u16 = if s >= 0 {
            s as u16
        } else {
            (s as i32 + 0x1_0000) as u16
        };
        assert(bits as nat == sample_bits(s));
        push_le16(&mut out, bits);
        proof {
            let next = samples@.take(i + 1);
            assert(next[i as int] == s);
            assert(pcm16(next) =~= pcm16(samples@.take(i as int)) + le16(bits as nat));
        }
        i = i + 1;
    }
    assert(samples@.take(samples@.len() as int) =~= samples@);
    proof {
        lemma_wav_header_fields(samples@);
        assert forall|i: int| 0 <= i < samples@.len() implies out@[44 + 2 * i] + 0x100 * out@[45
            + 2 * i] == if samples@[i] >= 0 {
            samples@[i] as int
        } else {
            samples@[i] + 0x1_0000
        } by {
            lemma_wav_sample_bytes(samples@, i);
        }
    }
    out
}

/// Round-trip law: the data chunk gives back every sample exactly —
/// decoding the two bytes at `44 + 2i` yields sample `i`.
pub proof fn lemma_wav_samples_decode(samples: Seq<i16>, i: int)
    requires
        0 <= i < samples.len(),
    ensures
        wav_bytes(samples).len() == 44 + 2 * samples.len(),
        decode_sample(wav_bytes(samples)[44 + 2 * i], wav_bytes(samples)[45 + 2 * i])
            == samples[i],
{
    let w = wav_bytes(samples);
    assert(wav_header(samples.len()).len() == 44);
    assert(w[44 + 2 * i] == pcm16(samples)[2 * i]);
    assert(w[45 + 2 * i] == pcm16(samples)[2 * i + 1]);
    assert((2 * i) / 2 == i);
    assert((2 * i + 1) / 2 == i);
}

/// Format law: whatever the samples, the file opens with `RIFF`, `WAVE`
/// and the same fixed `fmt ` chunk — 22 050 Hz sample rate, byte rate
/// 44 100 = rate × block align 2, mono, 16-bit PCM — and the `data` tag.
pub proof fn lemma_wav_format(samples: Seq<i16>)
    ensures
        wav_bytes(samples).subrange(12, 36) == fmt_chunk(),
        read_le32(wav_bytes(samples), 24) == 22_050,
        read_le32(wav_bytes(samples), 28) == 44_100,
        read_le32(wav_bytes(samples), 28) == 2 * read_le32(wav_bytes(samples), 24),
        wav_bytes(samples).subrange(0, 4) == seq![0x52u8, 0x49, 0x46, 0x46],
        wav_bytes(samples).subrange(8, 12) == seq![0x57u8, 0x41, 0x56, 0x45],
        wav_bytes(samples).subrange(36, 40) == seq![0x64u8, 0x61, 0x74, 0x61],
{
    let w = wav_bytes(samples);
    assert(wav_header(samples.len()).len() == 44);
    assert(w.subrange(12, 36) =~= fmt_chunk());
    assert(w.subrange(0, 4) =~= seq![0x52u8, 0x49, 0x46, 0x46]);
    assert(w.subrange(8, 12) =~= seq![0x57u8, 0x41, 0x56, 0x45]);
    assert(w.subrange(36, 40) =~= seq![0x64u8, 0x61, 0x74, 0x61]);
    assert(w[24] == 0x22 && w[25] == 0x56 && w[26] == 0 && w[27] == 0);
    assert(w[28] == 0x44 && w[29] == 0xAC && w[30] == 0 && w[31] == 0);
}

/// Header law in plain bytes: the sample rate reads 22 050, the byte rate
/// 44 100, and the two size fields `36 + 2n` and `2n` (kept to 32 bits).
#[verifier::rlimit(60)]
pub proof fn lemma_wav_header_fields(samples: Seq<i16>)
    ensures
        ({
            let w = wav_bytes(samples);
            &&& w.len() == 44 + 2 * samples.len()
            &&& w.subrange(12, 36) == fmt_chunk()
            &&& w[24] + 0x100 * w[25] + 0x1_0000 * w[26] + 0x100_0000 * w[27] == 22_050
            &&& w[28] + 0x100 * w[29] + 0x1_0000 * w[30] + 0x100_0000 * w[31] == 44_100
            &&& 36 + (2 * samples.len()) % 0x1_0000_0000 < 0x1_0000_0000 ==> w[4] + 0x100 * w[5]
                + 0x1_0000 * w[6] + 0x100_0000 * w[7] == 36 + (2 * samples.len()) % 0x1_0000_0000
            &&& w[40] + 0x100 * w[41] + 0x1_0000 * w[42] + 0x100_0000 * w[43] == (2
                * samples.len()) % 0x1_0000_0000
        }),
{
    lemma_wav_format(samples);
    let n = samples.len();
    let d = data_len_field(n);
    assert(d < 0x1_0000_0000);
    if 36 + d < 0x1_0000_0000 {
        lemma_le32_roundtrip(36 + d);
    }
    lemma_le32_roundtrip(d);
    let w = wav_bytes(samples);
    let h = wav_header(n);
    assert(h.len() == 44);
    assert(w[4] == h[4] && w[5] == h[5] && w[6] == h[6] && w[7] == h[7]);
    assert(h[4] == le32(36 + d)[0] && h[5] == le32(36 + d)[1] && h[6] == le32(36 + d)[2]
        && h[7] == le32(36 + d)[3]);
    assert(w[40] == h[40] && w[41] == h[41] && w[42] == h[42] && w[43] == h[43]);
    assert(h[40] == le32(d)[0] && h[41] == le32(d)[1] && h[42] == le32(d)[2] && h[43]
        == le32(d)[3]);
}

/// Sample law in plain bytes: the two bytes at `44 + 2i` are sample `i`'s
/// 16-bit two's-complement pattern, low byte first.
pub proof fn lemma_wav_sample_bytes(samples: Seq<i16>, i: int)
    requires
        0 <= i < samples.len(),
    ensures
        wav_bytes(samples)[44 + 2 * i] + 0x100 * wav_bytes(samples)[45 + 2 * i] == if samples[i]
            >= 0 {
            samples[i] as int
        } else {
            samples[i] + 0x1_0000
        },
{
    let w = wav_bytes(samples);
    assert(wav_header(samples.len()).len() == 44);
    assert(w[44 + 2 * i] == pcm16(samples)[2 * i]);
    assert(w[45 + 2 * i] == pcm16(samples)[2 * i + 1]);
    assert((2 * i) / 2 == i);
    assert((2 * i + 1) / 2 == i);
    assert((2 * i + 1) % 2 == 1);
    assert((2 * i) % 2 == 0);
    let b = sample_bits(samples[i]);
    assert(b < 0x1_0000);
    assert(b % 256 + 0x100 * (b / 256) == b);
}

/// Size-field law: when the data fits the 32-bit fields, the RIFF size
/// field is the file length minus the 8-byte RIFF preamble, and the data
/// size field is the number of sample bytes.
pub proof fn lemma_wav_size_fields(samples: Seq<i16>)
    requires
        36 + 2 * samples.len() < 0x1_0000_0000,
    ensures
        read_le32(wav_bytes(samples), 4) == wav_bytes(samples).len() - 8,
        read_le32(wav_bytes(samples), 40) == 2 * samples.len(),
        wav_bytes(samples).subrange(0, 4) == tag(0x52, 0x49, 0x46, 0x46),
        wav_bytes(samples).subrange(8, 12) == tag(0x57, 0x41, 0x56, 0x45),
        wav_bytes(samples).subrange(36, 40) == tag(0x64, 0x61, 0x74, 0x61),
{
    let w = wav_bytes(samples);
    let n = samples.len();
    assert(data_len_field(n) == 2 * n);
    assert(wav_header(n).len() == 44);
    assert(w.subrange(0, 4) =~= tag(0x52, 0x49, 0x46, 0x46));
    assert(w.subrange(8, 12) =~= tag(0x57, 0x41, 0x56, 0x45));
    assert(w.subrange(36, 40) =~= tag(0x64, 0x61, 0x74, 0x61));
    lemma_le32_roundtrip(36 + 2 * n);
    lemma_le32_roundtrip(2 * n);
    assert(w[4] == le32(36 + 2 * n)[0]);
    assert(w[5] == le32(36 + 2 * n)[1]);
    assert(w[6] == le32(36 + 2 * n)[2]);
    assert(w[7] == le32(36 + 2 * n)[3]);
    assert(w[40] == le32(2 * n)[0]);
    assert(w[41] == le32(2 * n)[1]);
    assert(w[42] == le32(2 * n)[2]);
    assert(w[43] == le32(2 * n)[3]);
}

proof fn lemma_le32_roundtrip(x: nat)
    requires
        x < 0x1_0000_0000,
    ensures
        le32(x)[0] + 0x100 * le32(x)[1] + 0x1_0000 * le32(x)[2] + 0x100_0000 * le32(x)[3] == x,
{
    let b0 = x % 256;
    let b1 = (x / 0x100) % 256;
    let b2 = (x / 0x1_0000) % 256;
    let b3 = (x / 0x100_0000) % 256;
    assert(b0 + 0x100 * b1 + 0x1_0000 * b2 + 0x100_0000 * b3 == x) by (nonlinear_arith)
        requires
            x < 0x1_0000_0000,
            b0 == x % 256,
            b1 == (x / 0x100) % 256,
            b2 == (x / 0x1_0000) % 256,
            b3 == (x / 0x100_0000) % 256,
    ;
}

} // verus!
