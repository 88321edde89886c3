//! Channel downmix and the decision of how a native capture reaches the
//! 16 kHz mono target.
use vstd::prelude::*;

verus! {

/// Sum of the first `k` channel samples of frame `f` in an interleaved buffer.
pub open spec fn frame_sum(s: Seq<i16>, ch: int, f: int, k: int) -> int
    decreases k,
{
    if k <= 0 {
        0
    } else {
        frame_sum(s, ch, f, k - 1) + s[f * ch + k - 1] as int
    }
}

/// Integer division rounding toward zero (the rounding of Rust's `/`).
pub open spec fn div_toward_zero(a: int, b: int) -> int {
    if a >= 0 {
        a / b
    } else {
        -((-a) / b)
    }
}

/// The mono value of frame `f`: the channel average, rounded toward zero.
pub open spec fn mono_frame(s: Seq<i16>, ch: int, f: int) -> int {
    div_toward_zero(frame_sum(s, ch, f, ch), ch)
}

/// The downmix of an interleaved buffer with `ch` channels: one value per
/// complete frame; a trailing partial frame is dropped. One channel (or a
/// channel count of zero) leaves the buffer as it is.
pub open spec fn downmix(s: Seq<i16>, ch: int) -> Seq<i16> {
    if ch <= 1 {
        s
    } else {
        Seq::new((s.len() / (ch as nat)) as nat, |f: int| mono_frame(s, ch, f) as i16)
    }
}

proof fn lemma_frame_sum_bounds(s: Seq<i16>, ch: int, f: int, k: int)
    requires
        0 <= k <= ch,
        0 <= f,
        (f + 1) * ch <= s.len(),
    ensures
        -32768 * k <= frame_sum(s, ch, f, k) <= 32767 * k,
    decreases k,
{
    if k > 0 {
        lemma_frame_sum_bounds(s, ch, f, k - 1);
        assert(f * ch + k - 1 < (f + 1) * ch) by (nonlinear_arith)
            requires k <= ch, 0 < k;
    }
}

proof fn lemma_mono_frame_fits(s: Seq<i16>, ch: int, f: int)
    requires
        ch >= 1,
        0 <= f,
        (f + 1) * ch <= s.len(),
    ensures
        -32768 <= mono_frame(s, ch, f) <= 32767,
{
    lemma_frame_sum_bounds(s, ch, f, ch);
    let t = frame_sum(s, ch, f, ch);
    if t >= 0 {
        assert(t / ch <= 32767) by (nonlinear_arith)
            requires t <= 32767 * ch, ch >= 1, t >= 0;
        assert(t / ch >= 0) by (nonlinear_arith)
            requires ch >= 1, t >= 0;
    } else {
        assert((-t) / ch <= 32768) by (nonlinear_arith)
            requires -t <= 32768 * ch, ch >= 1, -t > 0;
        assert((-t) / ch >= 0) by (nonlinear_arith)
            requires ch >= 1, -t > 0;
    }
}

proof fn lemma_frame_in_bounds(len: int, ch: int, f: int, c: int)
    requires
        ch >= 1,
        0 <= f < len / ch,
        0 <= c < ch,
        len >= 0,
    ensures
        0 <= f * ch + c < len,
        (f + 1) * ch <= len,
{
    assert((f + 1) * ch <= (len / ch) * ch) by (nonlinear_arith)
        requires f + 1 <= len / ch, ch >= 1;
    assert((len / ch) * ch <= len) by (nonlinear_arith)
        requires ch >= 1, len >= 0;
    assert(0 <= f * ch) by (nonlinear_arith)
        requires f >= 0, ch >= 1;
    assert((f + 1) * ch == f * ch + ch) by (nonlinear_arith);
}

/// The sum of some samples.
pub open spec fn samples_total(s: Seq<i16>) -> int {
    s.fold_left(0int, |acc: int, x: i16| acc + x)
}

proof fn lemma_frame_sum_is_total(s: Seq<i16>, ch: int, f: int, k: int)
    requires
        0 <= k,
        0 <= f * ch,
        f * ch + k <= s.len(),
    ensures
        frame_sum(s, ch, f, k) == samples_total(s.subrange(f * ch, f * ch + k)),
    decreases k,
{
    let part = s.subrange(f * ch, f * ch + k);
    if k > 0 {
        lemma_frame_sum_is_total(s, ch, f, k - 1);
        assert(part.drop_last() =~= s.subrange(f * ch, f * ch + k - 1));
        assert(part.last() == s[f * ch + k - 1]);
    } else {
        assert(part.len() == 0);
    }
}

/// Downmixing averages the channels: for two channels or more, each value of
/// the downmix is the sum of all the samples of its frame divided by the
/// channel count and rounded toward zero; there is one value per complete
/// frame.
pub proof fn downmix_averages_channels(s: Seq<i16>, ch: int, f: int)
    requires
        2 <= ch <= 65535,
        0 <= f < (s.len() as int) / ch,
    ensures
        downmix(s, ch).len() == (s.len() as int) / ch,
        ({
            let t = samples_total(s.subrange(f * ch, f * ch + ch));
            let q = downmix(s, ch)[f] as int;
            if t >= 0 {
                q * ch <= t < q * ch + ch
            } else {
                q * ch - ch < t <= q * ch
            }
        }),
{
    lemma_frame_in_bounds(s.len() as int, ch, f, 0);
    lemma_mono_frame_fits(s, ch, f);
    assert((f + 1) * ch == f * ch + ch) by (nonlinear_arith);
    lemma_frame_sum_is_total(s, ch, f, ch);
    let t = frame_sum(s, ch, f, ch);
    let q = mono_frame(s, ch, f);
    assert(downmix(s, ch)[f] as int == q);
    if t >= 0 {
        assert(q * ch <= t < q * ch + ch) by (nonlinear_arith)
            requires q == t / ch, ch >= 2, t >= 0;
    } else {
        assert(q * ch - ch < t <= q * ch) by (nonlinear_arith)
            requires q == -((-t) / ch), ch >= 2, t < 0;
    }
}

/// Mixes an interleaved multi-channel buffer down to one channel: each frame
/// becomes the average of its channels (rounded toward zero). With one
/// channel or fewer the buffer is returned unchanged.
pub fn downmix_to_mono(samples: &[i16], channels: u16) -> (mono: Vec<i16>)
    ensures
        mono@ == downmix(samples@, channels as int),
{
    if channels <= 1 {
        return vstd::slice::slice_to_vec(samples);
    }
    let ch: usize = channels as usize;
    let n: usize = samples.len();
    let frames: usize = n / ch;
    let mut mono: Vec<i16> = Vec::with_capacity(frames);
    let mut f: usize = 0;
    while f < frames
        invariant
            ch == channels as usize,
            ch >= 2,
            n == samples@.len(),
            frames == samples@.len() / (ch as nat),
            f <= frames,
            mono@.len() == f,
            forall|g: int| 0 <= g < f ==> mono@[g] == mono_frame(samples@, ch as int, g) as i16,
        decreases frames - f,
    {
        let mut sum: i64 = 0;
        let mut c: usize = 0;
        proof {
            lemma_frame_in_bounds(samples@.len() as int, ch as int, f as int, 0);
        }
        while c < ch
            invariant
                ch == channels as usize,
                ch >= 2,
                frames == samples@.len() / (ch as nat),
                f < frames,
                n == samples@.len(),
                c <= ch,
                sum == frame_sum(samples@, ch as int, f as int, c as int),
                (f + 1) * ch <= samples@.len(),
            decreases ch - c,
        {
            proof {
                lemma_frame_in_bounds(samples@.len() as int, ch as int, f as int, c as int);
                lemma_frame_sum_bounds(samples@, ch as int, f as int, c as int);
                assert(ch <= 65535);
                assert((f as int) * (ch as int) + (c as int) < samples@.len());
            }
            let idx: usize = f * ch + c;
            sum = sum + samples[idx] as i64;
            c = c + 1;
        }
        proof {
            lemma_mono_frame_fits(samples@, ch as int, f as int);
        }
        let q: i64 = sum / (ch as i64);
        assert(q == mono_frame(samples@, ch as int, f as int));
        mono.push(q as i16);
        f = f + 1;
    }
    assert(mono@ =~= downmix(samples@, channels as int));
    mono
}

/// Interleaved stereo mixed down to mono: `(L + R) / 2` per frame.
pub fn downmix_stereo_to_mono(samples: &[i16]) -> (mono: Vec<i16>)
    ensures
        mono@ == downmix(samples@, 2),
        mono@.len() == samples@.len() / 2,
        forall|f: int|
            0 <= f < mono@.len() ==> #[trigger] mono@[f] as int == div_toward_zero(
                samples@[2 * f] + samples@[2 * f + 1],
                2,
            ),
{
    let mono = downmix_to_mono(samples, 2);
    assert forall|f: int| 0 <= f < mono@.len() implies #[trigger] mono@[f] as int == div_toward_zero(
        samples@[2 * f] + samples@[2 * f + 1],
        2,
    ) by {
        lemma_frame_in_bounds(samples@.len() as int, 2, f, 1);
        lemma_mono_frame_fits(samples@, 2, f);
        assert(frame_sum(samples@, 2, f, 2) == samples@[2 * f] + samples@[2 * f + 1]) by {
            reveal_with_fuel(frame_sum, 3);
            assert(f * 2 == 2 * f);
        }
    }
    mono
}

/// How a native capture reaches the 16 kHz mono target.
#[derive(Debug)]
pub enum MonoConversion {
    /// Already at the target rate: these are the finished samples.
    Ready(Vec<i16>),
    /// Mono samples still at `from_rate`; a sample-rate conversion to the
    /// target rate remains to be done.
    NeedsResample { mono: Vec<i16>, from_rate: u32 },
}

/// Brings interleaved native samples to one channel and says whether a rate
/// conversion is still owed. A buffer that is already mono at 16 kHz comes
/// back unchanged; otherwise it is downmixed first.
pub fn to_mono_16k(samples: &[i16], channels: u16, sample_rate: u32) -> (out: MonoConversion)
    ensures
        sample_rate == crate::audio::TARGET_SAMPLE_RATE ==> (out matches MonoConversion::Ready(v)
            && v@ == downmix(samples@, channels as int)),
        sample_rate != crate::audio::TARGET_SAMPLE_RATE ==> (out matches MonoConversion::NeedsResample {
            mono,
            from_rate,
        } && mono@ == downmix(samples@, channels as int) && from_rate == sample_rate),
        (channels == crate::audio::TARGET_CHANNELS && sample_rate == crate::audio::TARGET_SAMPLE_RATE)
            ==> (out matches MonoConversion::Ready(v) && v@ == samples@),
{
    if channels == crate::audio::TARGET_CHANNELS && sample_rate == crate::audio::TARGET_SAMPLE_RATE {
        return MonoConversion::Ready(vstd::slice::slice_to_vec(samples));
    }
    let mono = downmix_to_mono(samples, channels);
    if sample_rate == crate::audio::TARGET_SAMPLE_RATE {
        return MonoConversion::Ready(mono);
    }
    MonoConversion::NeedsResample { mono, from_rate: sample_rate }
}

proof fn lemma_frame_sum_constant(s: Seq<i16>, ch: int, f: int, k: int, v: int)
    requires
        0 <= k <= ch,
        0 <= f,
        (f + 1) * ch <= s.len(),
        forall|c: int| 0 <= c < ch ==> #[trigger] s[f * ch + c] as int == v,
    ensures
        frame_sum(s, ch, f, k) == k * v,
    decreases k,
{
    if k > 0 {
        lemma_frame_sum_constant(s, ch, f, k - 1, v);
        let c = k - 1;
        assert(s[f * ch + c] as int == v);
        assert(frame_sum(s, ch, f, k) == frame_sum(s, ch, f, k - 1) + s[f * ch + k - 1] as int);
        assert(f * ch + k - 1 == f * ch + c);
        assert((k - 1) * v + v == k * v) by (nonlinear_arith);
    } else {
        assert(k * v == 0) by (nonlinear_arith)
            requires k == 0;
    }
}

/// A frame whose channels all carry the same value mixes down to exactly
/// that value: downmixing never alters a signal that is identical on every
/// channel.
pub proof fn downmix_keeps_identical_channels(s: Seq<i16>, ch: int)
    requires
        ch >= 2,
        forall|f: int, c: int|
            0 <= f < s.len() as int / ch && 0 <= c < ch ==> #[trigger] s[f * ch + c] == s[f * ch],
    ensures
        downmix(s, ch).len() == s.len() as int / ch,
        forall|f: int| 0 <= f < s.len() as int / ch ==> #[trigger] downmix(s, ch)[f] == s[f * ch],
{
    assert forall|f: int| 0 <= f < s.len() as int / ch implies #[trigger] downmix(s, ch)[f] == s[f * ch] by {
        lemma_frame_in_bounds(s.len() as int, ch, f, 0);
        let v = s[f * ch] as int;
        assert forall|c: int| 0 <= c < ch implies #[trigger] s[f * ch + c] as int == v by {
            assert(s[f * ch + c] == s[f * ch]);
        }
        lemma_frame_sum_constant(s, ch, f, ch, v);
        assert((ch * v) / ch == v) by (nonlinear_arith)
            requires ch >= 1;
        assert((ch * -v) / ch == -v) by (nonlinear_arith)
            requires ch >= 1;
        assert(ch * v == -(ch * -v)) by (nonlinear_arith);
    }
}

} // verus!
