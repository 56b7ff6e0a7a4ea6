//! Serialization of a mono 16-bit PCM stream as a WAV file: a 44-byte
//! RIFF/WAVE header followed by the samples as little-endian two-byte words.
//! A capture of zero samples still yields a valid, empty-bodied file.

use vstd::arithmetic::div_mod::{
    lemma_div_pos_is_pos, lemma_fundamental_div_mod_converse, lemma_multiply_divide_lt,
};
use vstd::prelude::*;

verus! {

/// The two little-endian bytes of the unsigned 16-bit value `x`.
pub open spec fn le16(x: int) -> Seq<u8> {
    seq![(x % 256) as u8, ((x / 256) % 256) as u8]
}

/// The four little-endian bytes of the unsigned 32-bit value `x`.
pub open spec fn le32(x: int) -> Seq<u8> {
    seq![
        (x % 256) as u8,
        ((x / 256) % 256) as u8,
        ((x / 65536) % 256) as u8,
        ((x / 16777216) % 256) as u8,
    ]
}

/// The two's-complement unsigned reading of a signed 16-bit sample.
pub open spec fn u16_of_i16(x: i16) -> int {
    if x >= 0 {
        x as int
    } else {
        x + 65536
    }
}

/// The little-endian byte stream of a sample sequence: two bytes per sample.
pub open spec fn sample_bytes(s: Seq<i16>) -> Seq<u8> {
    Seq::new(
        (2 * s.len()) as nat,
        |k: int|
            {
                let v = u16_of_i16(s[k / 2]);
                if k % 2 == 0 {
                    (v % 256) as u8
                } else {
                    ((v / 256) % 256) as u8
                }
            },
    )
}

/// The 44-byte header of a canonical artifact holding `n` samples: a RIFF
/// container with a `fmt ` chunk describing integer PCM, one channel,
/// 16 bits per sample at the given rate, and a `data` chunk of `2 * n` bytes.
pub open spec fn wav_header(rate: int, n: int) -> Seq<u8> {
    seq![82u8, 73u8, 70u8, 70u8]  // "RIFF"
     + le32(36 + 2 * n)  // remaining RIFF size
     + seq![87u8, 65u8, 86u8, 69u8]  // "WAVE"
     + seq![102u8, 109u8, 116u8, 32u8]  // "fmt "
     + le32(16)  // fmt chunk size
     + le16(1)  // integer PCM
     + le16(1)  // one channel
     + le32(rate)  // sample rate
     + le32(2 * rate)  // byte rate
     + le16(2)  // block align
     + le16(16)  // bits per sample
     + seq![100u8, 97u8, 116u8, 97u8]  // "data"
     + le32(2 * n)  // data chunk size
}

/// The full canonical artifact: header, then the samples' bytes.
pub open spec fn wav_spec(s: Seq<i16>, rate: int) -> Seq<u8> {
    wav_header(rate, s.len() as int) + sample_bytes(s)
}

/// Append the two little-endian bytes of `x`.
fn push_le16(out: &mut Vec<u8>, x: u16)
    ensures
        final(out)@ == old(out)@ + le16(x as int),
{
    out.push((x % 256) as u8);
    out.push(((x / 256) % 256) as u8);
    proof {
        assert(out@ =~= old(out)@ + le16(x as int));
    }
}

/// Append the four little-endian bytes of `x`.
fn push_le32(out: &mut Vec<u8>, x: u32)
    ensures
        final(out)@ == old(out)@ + le32(x as int),
{
    out.push((x % 256) as u8);
    out.push(((x / 256) % 256) as u8);
    out.push(((x / 65536) % 256) as u8);
    out.push(((x / 16777216) % 256) as u8);
    proof {
        assert(out@ =~= old(out)@ + le32(x as int));
    }
}

/// The unsigned 16-bit word of one sample.
fn sample_word(x: i16) -> (r: u16)
    ensures
        r as int == u16_of_i16(x),
{
    if x >= 0 {
        x as u16
    } else {
        ((x as i32) + 65536) as u16
    }
}

/// Taking one more sample appends exactly its two bytes to the stream.
proof fn lemma_sample_bytes_step(s: Seq<i16>, i: int)
    requires
        0 <= i < s.len(),
    ensures
        sample_bytes(s.take(i + 1)) =~= sample_bytes(s.take(i)) + le16(u16_of_i16(s[i])),
{
    let a = sample_bytes(s.take(i + 1));
    let b = sample_bytes(s.take(i)) + le16(u16_of_i16(s[i]));
    assert(a.len() == 2 * i + 2);
    assert(b.len() == 2 * i + 2);
    assert forall|k: int| 0 <= k < 2 * i + 2 implies a[k] == b[k] by {
        lemma_div_pos_is_pos(k, 2);
        if k < 2 * i {
            lemma_multiply_divide_lt(k, 2, i);
            assert(s.take(i + 1)[k / 2] == s.take(i)[k / 2]);
        } else {
            if k == 2 * i {
                lemma_fundamental_div_mod_converse(k, 2, i, 0);
            } else {
                assert(k == 2 * i + 1);
                lemma_fundamental_div_mod_converse(k, 2, i, 1);
            }
            assert(s.take(i + 1)[i] == s[i]);
        }
    }
}

/// Serialize a mono 16-bit PCM stream as a WAV file at the given rate: the
/// canonical 44-byte header followed by each sample's two's-complement value
/// as a little-endian word.
pub fn encode_wav_mono16(samples: &Vec<i16>, sample_rate: u32) -> (r: Vec<u8>)
    requires
        2 * sample_rate <= u32::MAX,
        36 + 2 * samples@.len() <= u32::MAX,
    ensures
        r@ == wav_spec(samples@, sample_rate as int),
        r@.len() == 44 + 2 * samples@.len(),
{
    let n = samples.len();
    let data_size: u32 = 2 * (n as u32);
    let mut out: Vec<u8> = Vec::new();
    out.push(82);
    out.push(73);
    out.push(70);
    out.push(70);
    push_le32(&mut out, 36 + data_size);
    out.push(87);
    out.push(65);
    out.push(86);
    out.push(69);
    out.push(102);
    out.push(109);
    out.push(116);
    out.push(32);
    push_le32(&mut out, 16);
    push_le16(&mut out, 1);
    push_le16(&mut out, 1);
    push_le32(&mut out, sample_rate);
    push_le32(&mut out, 2 * sample_rate);
    push_le16(&mut out, 2);
    push_le16(&mut out, 16);
    out.push(100);
    out.push(97);
    out.push(116);
    out.push(97);
    push_le32(&mut out, data_size);
    proof {
        assert(out@ =~= wav_header(sample_rate as int, n as int));
        assert(sample_bytes(samples@.take(0)) =~= Seq::<u8>::empty());
        assert(out@ =~= wav_header(sample_rate as int, n as int) + sample_bytes(
            samples@.take(0),
        ));
    }
    let mut i: usize = 0;
    while i < n
        invariant
            n == samples@.len(),
            i <= n,
            out@ == wav_header(sample_rate as int, n as int) + sample_bytes(
                samples@.take(i as int),
            ),
        decreases n - i,
    {
        let w = sample_word(samples[i]);
        push_le16(&mut out, w);
        proof {
            lemma_sample_bytes_step(samples@, i as int);
            assert(out@ =~= wav_header(sample_rate as int, n as int) + sample_bytes(
                samples@.take(i as int + 1),
            ));
        }
        i = i + 1;
    }
    proof {
        assert(samples@.take(n as int) =~= samples@);
        assert(out@ =~= wav_spec(samples@, sample_rate as int));
    }
    out
}

} // verus!
