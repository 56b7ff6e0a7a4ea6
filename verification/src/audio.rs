//! The audio sample pipeline: downmixing interleaved capture frames to mono,
//! resampling by linear interpolation to the fixed target rate, and the
//! recorder that accumulates samples between a start and a stop.
//!
//! Samples are mono 16-bit PCM values, the domain of the canonical artifact.
//! The capture adapter normalizes whatever encoding the device delivers
//! (float, signed 16-bit, signed 32-bit) to this domain before handing
//! chunks to the recorder.

use vstd::arithmetic::div_mod::{
    lemma_div_multiples_vanish, lemma_div_of0, lemma_div_pos_is_pos, lemma_fundamental_div_mod,
    lemma_fundamental_div_mod_converse, lemma_mod_division_less_than_divisor,
    lemma_mod_multiples_basic, lemma_multiply_divide_le,
};
use vstd::arithmetic::mul::{
    lemma_mul_inequality, lemma_mul_is_commutative, lemma_mul_is_distributive_add_other_way,
    lemma_mul_is_distributive_sub_other_way, lemma_mul_left_inequality, lemma_mul_nonnegative,
    lemma_mul_unary_negation, lemma_mul_upper_bound,
};
use vstd::prelude::*;

use crate::wav::{encode_wav_mono16, wav_spec};

verus! {

/// Sample rate assumed of the input device until its real rate is read.
pub const DEFAULT_INPUT_SAMPLE_RATE: u32 = 48000;

/// Sample rate of the canonical artifact handed to transcription.
pub const TARGET_OUTPUT_SAMPLE_RATE: u32 = 16000;

/// Integer division rounding toward zero, the rounding executable signed
/// division uses.
pub open spec fn div_trunc(a: int, d: int) -> int {
    if a >= 0 {
        a / d
    } else {
        -((-a) / d)
    }
}

/// Division toward zero keeps a value between the bounds its numerator has
/// as multiples of the divisor.
proof fn lemma_div_trunc_bounds(a: int, d: int, lo: int, hi: int)
    requires
        1 <= d,
        lo <= 0,
        0 <= hi,
        lo * d <= a,
        a <= hi * d,
    ensures
        lo <= div_trunc(a, d) <= hi,
{
    if a >= 0 {
        lemma_div_pos_is_pos(a, d);
        lemma_mul_is_commutative(hi, d);
        lemma_multiply_divide_le(a, d, hi);
    } else {
        lemma_div_pos_is_pos(-a, d);
        lemma_mul_unary_negation(lo, d);
        lemma_mul_is_commutative(-lo, d);
        lemma_multiply_divide_le(-a, d, -lo);
    }
}

/// The sum of a sequence of samples.
pub open spec fn seq_sum(s: Seq<i16>) -> int
    decreases s.len(),
{
    if s.len() == 0 {
        0
    } else {
        s[0] + seq_sum(s.skip(1))
    }
}

/// Appending one sample adds its value to the sum.
proof fn lemma_seq_sum_push(s: Seq<i16>, x: i16)
    ensures
        seq_sum(s.push(x)) == seq_sum(s) + x,
    decreases s.len(),
{
    if s.len() == 0 {
        assert(s.push(x).len() == 1);
        assert(s.push(x)[0] == x);
        assert(s.push(x).skip(1) =~= Seq::<i16>::empty());
        assert(seq_sum(Seq::<i16>::empty()) == 0);
    } else {
        assert(s.push(x)[0] == s[0]);
        assert(s.push(x).skip(1) =~= s.skip(1).push(x));
        lemma_seq_sum_push(s.skip(1), x);
        assert(seq_sum(s.push(x)) == s[0] + seq_sum(s.skip(1).push(x)));
    }
}

/// A sum of `len` samples lies between `len` times the extreme sample values.
proof fn lemma_seq_sum_bounds(s: Seq<i16>)
    ensures
        -32768 * s.len() <= seq_sum(s) <= 32767 * s.len(),
    decreases s.len(),
{
    if s.len() > 0 {
        lemma_seq_sum_bounds(s.skip(1));
    }
}

/// How many mono frames a buffer of `len` interleaved samples holds: one per
/// complete group of `channels` samples, plus one for a trailing partial
/// group.
pub open spec fn num_frames(len: int, channels: int) -> int {
    len / channels + if len % channels == 0 {
        0int
    } else {
        1int
    }
}

/// The samples of frame `f`: the group starting at `f * channels`, cut short
/// at the end of the buffer.
pub open spec fn frame_of(data: Seq<i16>, f: int, channels: int) -> Seq<i16> {
    let start = f * channels;
    let stop = if start + channels <= data.len() {
        start + channels
    } else {
        data.len() as int
    };
    data.subrange(start, stop)
}

/// The mono value of frame `f`: the frame's sum divided by the channel
/// count, rounded toward zero. A trailing partial frame is still divided by
/// the full channel count.
pub open spec fn mono_of_frame(data: Seq<i16>, f: int, channels: int) -> i16 {
    div_trunc(seq_sum(frame_of(data, f, channels)), channels) as i16
}

/// The mono buffer an interleaved buffer downmixes to: per frame, the
/// average of the frame's samples.
pub open spec fn downmix_spec(data: Seq<i16>, channels: int) -> Seq<i16> {
    Seq::new(num_frames(data.len() as int, channels) as nat, |f: int| mono_of_frame(data, f, channels))
}

/// Downmixing a single-channel buffer returns it unchanged: every frame is
/// one sample, and its average is itself.
pub proof fn lemma_downmix_mono(data: Seq<i16>)
    ensures
        downmix_spec(data, 1) =~= data,
{
    let n = data.len() as int;
    lemma_div_multiples_vanish(n, 1);
    assert(1 * n == n);
    lemma_mod_multiples_basic(n, 1);
    assert(n * 1 == n);
    assert(num_frames(n, 1) == n);
    assert forall|f: int| 0 <= f < n implies downmix_spec(data, 1)[f] == data[f] by {
        assert(f * 1 == f);
        let fr = frame_of(data, f, 1);
        assert(fr =~= seq![data[f]]);
        assert(fr[0] == data[f]);
        assert(fr.skip(1) =~= Seq::<i16>::empty());
        assert(seq_sum(Seq::<i16>::empty()) == 0);
        assert(seq_sum(fr) == data[f]);
        assert(div_trunc(data[f] as int, 1) == data[f]) by {
            if data[f] >= 0 {
                lemma_div_multiples_vanish(data[f] as int, 1);
                assert(1 * (data[f] as int) == data[f] as int);
            } else {
                lemma_div_multiples_vanish(-(data[f] as int), 1);
                assert(1 * (-(data[f] as int)) == -(data[f] as int));
            }
        }
    }
}

/// Downmix an interleaved multi-channel buffer to mono by averaging the
/// samples within each frame.
pub fn downmix(data: &Vec<i16>, channels: usize) -> (r: Vec<i16>)
    requires
        1 <= channels,
    ensures
        r@ == downmix_spec(data@, channels as int),
{
    let n = data.len();
    let ghost ch = channels as int;
    let mut out: Vec<i16> = Vec::new();
    let mut start: usize = 0;
    proof {
        assert(out@.len() == 0);
        assert(0int * ch == 0);
    }
    while start < n
        invariant
            1 <= channels,
            ch == channels as int,
            n == data@.len(),
            start <= n,
            out@.len() * ch <= n ==> start == out@.len() * ch,
            out@.len() * ch > n ==> (out@.len() - 1) * ch < n && start == n,
            forall|f: int|
                0 <= f < out@.len() ==> out@[f] == mono_of_frame(data@, f, ch),
        decreases n - start,
    {
        let ghost fr_idx = out@.len() as int;
        proof {
            // start < n rules the partial-frame exit case out, so start is
            // exactly the next frame boundary.
            lemma_mul_nonnegative(fr_idx, ch);
        }
        let end = if n - start < channels {
            n
        } else {
            start + channels
        };
        let mut sum: i128 = 0;
        let mut k = start;
        while k < end
            invariant
                start <= k <= end <= n,
                n == data@.len(),
                1 <= channels,
                end - start <= channels,
                sum == seq_sum(data@.subrange(start as int, k as int)),
                -32768 * (k - start) <= sum <= 32767 * (k - start),
            decreases end - k,
        {
            proof {
                assert(data@.subrange(start as int, k as int + 1)
                    =~= data@.subrange(start as int, k as int).push(data@[k as int]));
                lemma_seq_sum_push(data@.subrange(start as int, k as int), data@[k as int]);
            }
            sum = sum + (data[k] as i128);
            k = k + 1;
            proof {
                lemma_seq_sum_bounds(data@.subrange(start as int, k as int));
            }
        }
        let chd = channels as i128;
        let q: i128 = if sum >= 0 {
            sum / chd
        } else {
            -((-sum) / chd)
        };
        proof {
            let fr = data@.subrange(start as int, end as int);
            assert(-32768 * ch <= -32768 * (end - start)) by {
                lemma_mul_inequality(end - start, ch, 32768);
                lemma_mul_is_commutative(end - start, 32768);
                lemma_mul_is_commutative(ch, 32768);
            }
            assert(32767 * (end - start) <= 32767 * ch) by {
                lemma_mul_left_inequality(32767, end - start, ch);
            }
            lemma_div_trunc_bounds(sum as int, ch, -32768, 32767);
            assert(q == div_trunc(seq_sum(fr), ch));
            assert(-32768 <= q <= 32767);
            // The produced value is exactly this frame's mono value.
            assert(frame_of(data@, fr_idx, ch) =~= fr) by {
                assert(fr_idx * ch == start);
            }
        }
        out.push(q as i16);
        start = end;
        proof {
            let l = out@.len() as int;
            assert((l - 1) * ch == fr_idx * ch) by {
                lemma_mul_is_distributive_sub_other_way(ch, l, 1);
            }
            assert(l * ch == fr_idx * ch + ch) by {
                lemma_mul_is_distributive_sub_other_way(ch, l, 1);
            }
        }
    }
    proof {
        let l = out@.len() as int;
        let n_i = n as int;
        if l * ch <= n_i {
            assert(start == l * ch);
            assert(start == n);
            lemma_mul_is_commutative(l, ch);
            lemma_div_multiples_vanish(l, ch);
            lemma_mod_multiples_basic(l, ch);
            assert(num_frames(n_i, ch) == l);
        } else {
            assert((l - 1) * ch < n_i);
            let r = n_i - (l - 1) * ch;
            assert(0 < r);
            assert(r < ch) by {
                lemma_mul_is_distributive_sub_other_way(ch, l, 1);
            }
            lemma_fundamental_div_mod_converse(n_i, ch, l - 1, r);
            assert(num_frames(n_i, ch) == l);
        }
        assert(out@ =~= downmix_spec(data@, ch));
    }
    out
}

/// Linear interpolation between samples `a` and `b` at fractional position
/// `num / den`, rounded toward zero.
pub open spec fn lerp_spec(a: i16, b: i16, num: int, den: int) -> int {
    a + div_trunc((b - a) * num, den)
}

/// How many output samples resampling `n` input samples from rate `from` to
/// rate `to` yields.
pub open spec fn resampled_len(n: int, from: int, to: int) -> int {
    n * to / from
}

/// The sample at output index `i` of a resampled stream: the source position
/// `i * from / to` is split into an integer index and a fraction, and the two
/// bracketing input samples are blended. A window that extends past the input
/// end yields the last input sample; an index fully past the end yields
/// silence.
pub open spec fn resampled_at(s: Seq<i16>, from: int, to: int, i: int) -> i16 {
    let idx = (i * from) / to;
    let num = (i * from) % to;
    if idx + 1 < s.len() {
        lerp_spec(s[idx], s[idx + 1], num, to) as i16
    } else if idx < s.len() {
        s[idx]
    } else {
        0
    }
}

/// The stream `s` resampled from rate `from` to rate `to` by linear
/// interpolation.
pub open spec fn resample_spec(s: Seq<i16>, from: int, to: int) -> Seq<i16> {
    Seq::new(
        resampled_len(s.len() as int, from, to) as nat,
        |i: int| resampled_at(s, from, to, i),
    )
}

/// Resampling at an unchanged rate returns the input unchanged: every source
/// position is integral, so every output sample is the input sample at the
/// same index.
pub proof fn lemma_resample_identity(s: Seq<i16>, rate: int)
    requires
        1 <= rate,
    ensures
        resample_spec(s, rate, rate) =~= s,
{
    let n = s.len() as int;
    lemma_mul_is_commutative(n, rate);
    lemma_div_multiples_vanish(n, rate);
    assert(resampled_len(n, rate, rate) == n);
    assert forall|i: int| 0 <= i < n implies resample_spec(s, rate, rate)[i] == s[i] by {
        lemma_mul_is_commutative(i, rate);
        lemma_div_multiples_vanish(i, rate);
        lemma_mod_multiples_basic(i, rate);
        assert((i * rate) / rate == i);
        assert((i * rate) % rate == 0);
        if i + 1 < n {
            assert((s[i + 1] - s[i]) * 0 == 0);
            lemma_div_of0(rate);
            assert(lerp_spec(s[i], s[i + 1], 0, rate) == s[i] as int);
        }
    }
}

/// The boundary behaviour of resampling: an output sample whose
/// interpolation window extends past the input end (its source index is the
/// last input index, so no further sample brackets it) equals the final
/// input sample, and one whose source index lies fully past the end is
/// silence.
pub proof fn lemma_resample_boundary(s: Seq<i16>, from: int, to: int, i: int)
    requires
        1 <= from,
        1 <= to,
        0 <= i,
    ensures
        (i * from) / to == s.len() - 1 ==> resampled_at(s, from, to, i) == s[s.len() - 1],
        (i * from) / to >= s.len() ==> resampled_at(s, from, to, i) == 0,
        i < resampled_len(s.len() as int, from, to) ==> resample_spec(s, from, to)[i]
            == resampled_at(s, from, to, i),
{
}

/// One interpolated sample. The result lies between `a` and `b`.
fn lerp(a: i16, b: i16, num: usize, den: usize) -> (r: i16)
    requires
        1 <= den,
        num < den,
        den <= u32::MAX,
    ensures
        r as int == lerp_spec(a, b, num as int, den as int),
{
    let ai = a as i64;
    let bi = b as i64;
    let d = bi - ai;
    proof {
        let dd = d as int;
        let nn = num as int;
        if dd >= 0 {
            lemma_mul_nonnegative(dd, nn);
            lemma_mul_upper_bound(dd, 65535, nn, 0xFFFF_FFFF);
        } else {
            lemma_mul_unary_negation(dd, nn);
            lemma_mul_nonnegative(-dd, nn);
            lemma_mul_upper_bound(-dd, 65535, nn, 0xFFFF_FFFF);
        }
    }
    let prod = d * (num as i64);
    let deni = den as i64;
    let q: i64 = if prod >= 0 {
        prod / deni
    } else {
        -((-prod) / deni)
    };
    proof {
        let dd = d as int;
        let nn = num as int;
        let de = den as int;
        if dd >= 0 {
            lemma_mul_nonnegative(dd, nn);
            lemma_mul_left_inequality(de, 0, dd);
            assert(prod <= dd * de) by {
                if dd > 0 {
                    lemma_mul_left_inequality(dd, nn, de);
                } else {
                    assert(0int * nn == 0);
                    assert(0int * de == 0);
                }
            }
            lemma_mul_is_commutative(dd, de);
            assert(0int * de == 0);
            lemma_div_trunc_bounds(dd * nn, de, 0, dd);
        } else {
            lemma_mul_unary_negation(dd, nn);
            lemma_mul_nonnegative(-dd, nn);
            assert(-prod <= (-dd) * de) by {
                lemma_mul_left_inequality(-dd, nn, de);
            }
            lemma_mul_unary_negation(dd, de);
            assert(dd * de <= prod);
            assert(0int * de == 0);
            lemma_div_trunc_bounds(dd * nn, de, dd, 0);
        }
        assert(q == div_trunc(dd * nn, de));
    }
    let r = ai + q;
    r as i16
}

/// Resample a mono stream from rate `from_rate` to rate `to_rate` by linear
/// interpolation. The output holds `⌊n · to_rate / from_rate⌋` samples; each
/// blends the two input samples bracketing its source position, holds the
/// last input sample where the window extends past the input end, and is
/// silence where the source index lies fully past it.
pub fn resample(samples: &Vec<i16>, from_rate: u32, to_rate: u32) -> (r: Vec<i16>)
    requires
        1 <= from_rate,
        1 <= to_rate,
        samples@.len() * to_rate <= usize::MAX,
    ensures
        r@ == resample_spec(samples@, from_rate as int, to_rate as int),
        r@.len() == samples@.len() * (to_rate as int) / (from_rate as int),
{
    let n = samples.len();
    let from_us = from_rate as usize;
    let to_us = to_rate as usize;
    proof {
        lemma_mul_nonnegative(n as int, to_us as int);
    }
    let out_len = (n * to_us) / from_us;
    let mut out: Vec<i16> = Vec::new();
    let mut i: usize = 0;
    while i < out_len
        invariant
            n == samples@.len(),
            from_us == from_rate as int,
            to_us == to_rate as int,
            1 <= from_us,
            1 <= to_us,
            to_us <= u32::MAX,
            n * to_us <= usize::MAX,
            out_len == resampled_len(n as int, from_us as int, to_us as int),
            i <= out_len,
            out@.len() == i,
            forall|j: int|
                0 <= j < i ==> out@[j] == resampled_at(
                    samples@,
                    from_us as int,
                    to_us as int,
                    j,
                ),
        decreases out_len - i,
    {
        proof {
            let ni = n as int;
            let fi = from_us as int;
            let ti = to_us as int;
            let ii = i as int;
            lemma_fundamental_div_mod(ni * ti, fi);
            lemma_mod_division_less_than_divisor(ni * ti, fi);
            lemma_mul_is_commutative(fi, out_len as int);
            assert(out_len * fi <= ni * ti);
            lemma_mul_inequality(ii + 1, out_len as int, fi);
            lemma_mul_is_distributive_add_other_way(fi, ii, 1);
            assert(ii * fi + fi <= out_len * fi);
            assert(ii * fi <= ni * ti - 1);
            lemma_mul_is_commutative(ii, fi);
        }
        let pos = i * from_us;
        let idx = pos / to_us;
        let rem = pos % to_us;
        proof {
            lemma_mod_division_less_than_divisor(pos as int, to_us as int);
        }
        let v: i16 = if idx < n {
            if n - idx > 1 {
                lerp(samples[idx], samples[idx + 1], rem, to_us)
            } else {
                samples[idx]
            }
        } else {
            0
        };
        proof {
            let spec_v = resampled_at(samples@, from_us as int, to_us as int, i as int);
            assert(v == spec_v);
        }
        out.push(v);
        i = i + 1;
    }
    proof {
        assert(out@ =~= resample_spec(samples@, from_us as int, to_us as int));
    }
    out
}

/// Copy of a sample buffer, element for element.
fn copy_samples(data: &Vec<i16>) -> (r: Vec<i16>)
    ensures
        r@ == data@,
{
    let mut out: Vec<i16> = Vec::new();
    let mut i: usize = 0;
    while i < data.len()
        invariant
            i <= data@.len(),
            out@ == data@.take(i as int),
        decreases data@.len() - i,
    {
        out.push(data[i]);
        proof {
            assert(out@ =~= data@.take(i as int + 1));
        }
        i = i + 1;
    }
    proof {
        assert(data@.take(data@.len() as int) =~= data@);
    }
    out
}

/// The recorder: the owned mono sample buffer of the session being captured,
/// with the rate the device delivers and the fixed rate of the artifact.
///
/// The capture adapter owns the device stream and appends every delivered
/// chunk through [`AudioRecorder::append_samples`]; appends stop before
/// [`AudioRecorder::stop`] reads the buffer.
pub struct AudioRecorder {
    samples: Vec<i16>,
    input_sample_rate: u32,
    output_sample_rate: u32,
}

impl AudioRecorder {
    /// The samples buffered so far.
    pub closed spec fn buffered(&self) -> Seq<i16> {
        self.samples@
    }

    /// The rate the buffered samples were captured at.
    pub closed spec fn input_rate(&self) -> u32 {
        self.input_sample_rate
    }

    /// The rate of the artifact.
    pub closed spec fn output_rate(&self) -> u32 {
        self.output_sample_rate
    }

    /// Both rates are positive.
    pub open spec fn wf(&self) -> bool {
        1 <= self.input_rate() && 1 <= self.output_rate()
    }

    /// The mono stream the artifact holds: the buffer, resampled to the
    /// output rate when the device's rate differs from it.
    pub open spec fn canonical_samples(&self) -> Seq<i16> {
        if self.input_rate() == self.output_rate() {
            self.buffered()
        } else {
            resample_spec(self.buffered(), self.input_rate() as int, self.output_rate() as int)
        }
    }

    /// A fresh recorder: empty buffer, default device rate, target artifact
    /// rate.
    pub fn new() -> (r: Self)
        ensures
            r.buffered() == Seq::<i16>::empty(),
            r.input_rate() == DEFAULT_INPUT_SAMPLE_RATE,
            r.output_rate() == TARGET_OUTPUT_SAMPLE_RATE,
            r.wf(),
    {
        Self::default()
    }

    /// Begin a capture: the device has been opened and reports delivering
    /// `input_sample_rate`; the buffer is cleared for the new session.
    pub fn start(&mut self, input_sample_rate: u32)
        requires
            1 <= input_sample_rate,
        ensures
            final(self).buffered() == Seq::<i16>::empty(),
            final(self).input_rate() == input_sample_rate,
            final(self).output_rate() == old(self).output_rate(),
    {
        self.samples.clear();
        self.input_sample_rate = input_sample_rate;
    }

    /// Append one delivered chunk of `channels`-interleaved samples,
    /// downmixed to mono by averaging within each frame. A single-channel
    /// chunk is appended unchanged.
    pub fn append_samples(&mut self, data: &Vec<i16>, channels: usize)
        requires
            1 <= channels,
        ensures
            final(self).buffered() == old(self).buffered() + downmix_spec(
                data@,
                channels as int,
            ),
            final(self).input_rate() == old(self).input_rate(),
            final(self).output_rate() == old(self).output_rate(),
    {
        let mut mono = if channels == 1 {
            proof {
                lemma_downmix_mono(data@);
            }
            copy_samples(data)
        } else {
            downmix(data, channels)
        };
        self.samples.append(&mut mono);
    }

    /// The number of samples buffered so far.
    pub fn buffered_len(&self) -> (r: usize)
        ensures
            r == self.buffered().len(),
    {
        self.samples.len()
    }

    /// The rate the buffered samples were captured at.
    pub fn input_sample_rate(&self) -> (r: u32)
        ensures
            r == self.input_rate(),
    {
        self.input_sample_rate
    }

    /// The rate of the artifact.
    pub fn output_sample_rate(&self) -> (r: u32)
        ensures
            r == self.output_rate(),
    {
        self.output_sample_rate
    }

    /// End the capture and serialize the canonical artifact: the buffer,
    /// resampled to the output rate where the device's rate differs, as a
    /// mono 16-bit WAV file.
    pub fn stop(&self) -> (r: Vec<u8>)
        requires
            self.wf(),
            self.buffered().len() * self.output_rate() <= usize::MAX,
            36 + 2 * self.canonical_samples().len() <= u32::MAX,
            2 * self.output_rate() <= u32::MAX,
        ensures
            r@ == wav_spec(self.canonical_samples(), self.output_rate() as int),
    {
        let resampled = if self.input_sample_rate != self.output_sample_rate {
            resample(&self.samples, self.input_sample_rate, self.output_sample_rate)
        } else {
            copy_samples(&self.samples)
        };
        encode_wav_mono16(&resampled, self.output_sample_rate)
    }
}

impl Default for AudioRecorder {
    /// A fresh recorder, as [`AudioRecorder::new`] returns it.
    fn default() -> (r: Self)
        ensures
            r.buffered() == Seq::<i16>::empty(),
            r.input_rate() == DEFAULT_INPUT_SAMPLE_RATE,
            r.output_rate() == TARGET_OUTPUT_SAMPLE_RATE,
            r.wf(),
    {
        AudioRecorder {
            samples: Vec::new(),
            input_sample_rate: DEFAULT_INPUT_SAMPLE_RATE,
            output_sample_rate: TARGET_OUTPUT_SAMPLE_RATE,
        }
    }
}

} // verus!
