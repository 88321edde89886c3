//! WAV framing of 16-bit mono recordings, reading them back, the naming of
//! pending recordings and the guard on their removal. Encoding and decoding
//! are done by `hound`.
use vstd::prelude::*;

use crate::audio::AudioError;
use crate::audio::device::str_equal;
use crate::text::{decimal, decimal_string, join_with, lemma_decimal_injective, lemma_decimal_len};

verus! {

/// Byte `0` (least significant) of `v` in two's complement.
pub open spec fn byte0(v: int) -> u8 {
    (v % 0x100) as u8
}

/// Byte `1` of `v` in two's complement.
pub open spec fn byte1(v: int) -> u8 {
    ((v / 0x100) % 0x100) as u8
}

/// Byte `2` of `v` in two's complement.
pub open spec fn byte2(v: int) -> u8 {
    ((v / 0x1_0000) % 0x100) as u8
}

/// Byte `3` of `v` in two's complement.
pub open spec fn byte3(v: int) -> u8 {
    ((v / 0x100_0000) % 0x100) as u8
}

/// The two's-complement little-endian bytes of each sample, in order.
pub open spec fn sample_bytes(s: Seq<i16>) -> Seq<u8>
    decreases s.len(),
{
    if s.len() == 0 {
        Seq::empty()
    } else {
        sample_bytes(s.drop_last()) + seq![byte0(s.last() as int), byte1(s.last() as int)]
    }
}

/// The 44-byte header of a 16-bit mono PCM WAV file with `data_len` data
/// bytes at `rate` Hz: "RIFF", the RIFF size `36 + data_len`, "WAVE",
/// "fmt ", fmt size 16, format 1 (PCM), 1 channel, `rate`, byte rate
/// `2 * rate`, block align 2, 16 bits, "data", `data_len`; all numbers
/// little-endian.
pub open spec fn pcm16_mono_header(data_len: int, rate: int) -> Seq<u8> {
    let riff = 36 + data_len;
    let byte_rate = 2 * rate;
    seq![
        0x52u8, 0x49, 0x46, 0x46,
        byte0(riff), byte1(riff), byte2(riff), byte3(riff),
        0x57, 0x41, 0x56, 0x45,
        0x66, 0x6d, 0x74, 0x20,
        16, 0, 0, 0,
        1, 0,
        1, 0,
        byte0(rate), byte1(rate), byte2(rate), byte3(rate),
        byte0(byte_rate), byte1(byte_rate), byte2(byte_rate), byte3(byte_rate),
        2, 0,
        16, 0,
        0x64, 0x61, 0x74, 0x61,
        byte0(data_len), byte1(data_len), byte2(data_len), byte3(data_len)
    ]
}

/// The canonical PCM WAV file holding 16-bit mono `samples` at `rate` Hz:
/// the 44-byte header followed by the samples.
pub open spec fn pcm16_mono_wav(samples: Seq<i16>, rate: u32) -> Seq<u8> {
    pcm16_mono_header(2 * samples.len() as int, rate as int) + sample_bytes(samples)
}

proof fn lemma_sample_bytes(s: Seq<i16>)
    ensures
        sample_bytes(s).len() == 2 * s.len(),
        forall|i: int| 0 <= i < s.len() ==> #[trigger] sample_bytes(s)[2 * i] == byte0(s[i] as int),
        forall|i: int|
            0 <= i < s.len() ==> #[trigger] sample_bytes(s)[2 * i + 1] == byte1(s[i] as int),
    decreases s.len(),
{
    if s.len() > 0 {
        let t = s.drop_last();
        lemma_sample_bytes(t);
        let tail = seq![byte0(s.last() as int), byte1(s.last() as int)];
        assert(sample_bytes(s) == sample_bytes(t) + tail);
        assert forall|i: int| 0 <= i < s.len() implies #[trigger] sample_bytes(s)[2 * i] == byte0(
            s[i] as int,
        ) by {
            if i < t.len() {
                assert(sample_bytes(t)[2 * i] == byte0(t[i] as int));
                assert(t[i] == s[i]);
            } else {
                assert(2 * i == sample_bytes(t).len());
            }
        }
        assert forall|i: int| 0 <= i < s.len() implies #[trigger] sample_bytes(s)[2 * i + 1] == byte1(
            s[i] as int,
        ) by {
            if i < t.len() {
                assert(sample_bytes(t)[2 * i + 1] == byte1(t[i] as int));
                assert(t[i] == s[i]);
            } else {
                assert(2 * i + 1 == sample_bytes(t).len() + 1);
            }
        }
    }
}

proof fn lemma_split_byte(a: int, d: int)
    requires
        a >= 0,
        d > 0,
    ensures
        a / d == (a / d) % 0x100 + 0x100 * (a / (d * 0x100)),
{
    assert((a / d) / 0x100 == a / (d * 0x100)) by (nonlinear_arith)
        requires a >= 0, d > 0;
}

proof fn lemma_u32_from_bytes(a: int, b: int)
    requires
        0 <= a < 0x1_0000_0000,
        0 <= b < 0x1_0000_0000,
        byte0(a) == byte0(b),
        byte1(a) == byte1(b),
        byte2(a) == byte2(b),
        byte3(a) == byte3(b),
    ensures
        a == b,
{
    lemma_split_byte(a, 1);
    lemma_split_byte(a, 0x100);
    lemma_split_byte(a, 0x1_0000);
    lemma_split_byte(b, 1);
    lemma_split_byte(b, 0x100);
    lemma_split_byte(b, 0x1_0000);
    assert(a / 0x100_0000 < 0x100);
    assert(b / 0x100_0000 < 0x100);
}

proof fn lemma_i16_from_bytes(a: int, b: int)
    requires
        -0x8000 <= a < 0x8000,
        -0x8000 <= b < 0x8000,
        byte0(a) == byte0(b),
        byte1(a) == byte1(b),
    ensures
        a == b,
{
    assert(a % 0x1_0000 == a % 0x100 + 0x100 * ((a / 0x100) % 0x100));
    assert(b % 0x1_0000 == b % 0x100 + 0x100 * ((b / 0x100) % 0x100));
}

/// Distinct recordings have distinct canonical WAV files: the layout
/// determines the rate and every sample.
pub proof fn pcm16_mono_wav_injective(s1: Seq<i16>, r1: u32, s2: Seq<i16>, r2: u32)
    requires
        pcm16_mono_wav(s1, r1) == pcm16_mono_wav(s2, r2),
    ensures
        s1 == s2,
        r1 == r2,
{
    let w = pcm16_mono_wav(s1, r1);
    lemma_sample_bytes(s1);
    lemma_sample_bytes(s2);
    let h1 = pcm16_mono_header(2 * s1.len() as int, r1 as int);
    let h2 = pcm16_mono_header(2 * s2.len() as int, r2 as int);
    assert(h1.len() == 44);
    assert(h2.len() == 44);
    assert(w.len() == 44 + 2 * s1.len());
    assert(pcm16_mono_wav(s2, r2).len() == 44 + 2 * s2.len());
    assert(s1.len() == s2.len());
    assert(w[24] == h1[24] && w[24] == h2[24]);
    assert(w[25] == h1[25] && w[25] == h2[25]);
    assert(w[26] == h1[26] && w[26] == h2[26]);
    assert(w[27] == h1[27] && w[27] == h2[27]);
    lemma_u32_from_bytes(r1 as int, r2 as int);
    assert forall|i: int| 0 <= i < s1.len() implies s1[i] == s2[i] by {
        assert(w[44 + 2 * i] == sample_bytes(s1)[2 * i]);
        assert(w[44 + 2 * i] == sample_bytes(s2)[2 * i]);
        assert(w[44 + 2 * i + 1] == sample_bytes(s1)[2 * i + 1]);
        assert(w[44 + 2 * i + 1] == sample_bytes(s2)[2 * i + 1]);
        lemma_i16_from_bytes(s1[i] as int, s2[i] as int);
    }
    assert(s1 =~= s2);
}

/// Inputs that a 16-bit mono WAV can hold: a positive rate whose byte rate
/// fits in 32 bits, and a data size that fits in the RIFF size field.
pub open spec fn wav_i16_mono_encodable(sample_count: int, rate: u32) -> bool {
    &&& 0 < rate
    &&& 2 * rate <= u32::MAX
    &&& 2 * sample_count + 36 <= u32::MAX
}

/// Whether `sample_count` samples at `rate` Hz can be written as a 16-bit
/// mono WAV file (see `wav_i16_mono_encodable`).
pub fn can_encode_wav_i16_mono(sample_count: usize, rate: u32) -> (b: bool)
    ensures
        b == wav_i16_mono_encodable(sample_count as int, rate),
{
    0 < rate && rate <= u32::MAX / 2 && sample_count <= ((u32::MAX - 36) / 2) as usize
}

/// Whether `b` is a canonical 16-bit mono WAV file of some encodable
/// samples and rate.
pub open spec fn is_pcm16_mono_wav(b: Seq<u8>) -> bool {
    exists|s: Seq<i16>, rate: u32|
        wav_i16_mono_encodable(s.len() as int, rate) && b == #[trigger] pcm16_mono_wav(s, rate)
}

/// `hound::WavWriter` (`new`, `write_sample`, `finalize`) writing `samples`
/// into memory with the given spec. Claims that the write succeeds and that
/// the bytes are the canonical PCM layout that the writer's source emits for
/// 1 channel and 16 bits: writing to an in-memory cursor cannot fail, and a
/// 16-bit sample always fits 16 bits. The conditions exclude the inputs on
/// which the writer panics (division by a zero rate, 32-bit overflow of the
/// byte rate or data size).
#[verifier::external_body]
fn hound_write_i16(samples: &[i16], channels: u16, sample_rate: u32, bits: u16) -> (r: Result<
    Vec<u8>,
    String,
>)
    requires
        channels == 1,
        bits == 16,
        wav_i16_mono_encodable(samples@.len() as int, sample_rate),
    ensures
        r is Ok,
        r matches Ok(b) ==> b@ == pcm16_mono_wav(samples@, sample_rate),
{
    let spec = hound::WavSpec {
        channels,
        sample_rate,
        bits_per_sample: bits,
        sample_format: hound::SampleFormat::Int,
    };
    let mut cursor = std::io::Cursor::new(Vec::new());
    let mut writer = hound::WavWriter::new(&mut cursor, spec).map_err(|e| e.to_string())?;
    for &s in samples {
        writer.write_sample(s).map_err(|e| e.to_string())?;
    }
    writer.finalize().map_err(|e| e.to_string())?;
    Ok(cursor.into_inner())
}

/// What `hound::WavReader` yields for a byte buffer read as `i16` samples:
/// the sample rate, the channel count and the interleaved samples, or
/// nothing when the buffer is refused.
pub uninterp spec fn hound_read_i16(bytes: Seq<u8>) -> Option<(u32, u16, Seq<i16>)>;

/// `hound::WavReader::new` on the bytes, then `spec()` and `samples::<i16>()`
/// collected. Claims that the result is `hound_read_i16` of the bytes, and
/// that a buffer in the canonical 16-bit mono layout (which the reader's
/// header and sample parsing accept) is read without error as one channel,
/// at a rate and with samples whose canonical layout is that buffer. The
/// error text is not stated.
#[verifier::external_body]
fn hound_read_samples_i16(bytes: &[u8]) -> (r: Result<(u32, u16, Vec<i16>), String>)
    ensures
        r is Ok <==> hound_read_i16(bytes@) is Some,
        r matches Ok(t) ==> hound_read_i16(bytes@) == Some((t.0, t.1, t.2@)),
        r matches Ok(t) ==> (is_pcm16_mono_wav(bytes@) ==> t.1 == 1
            && wav_i16_mono_encodable(t.2@.len() as int, t.0)
            && bytes@ == pcm16_mono_wav(t.2@, t.0)),
        is_pcm16_mono_wav(bytes@) ==> r is Ok,
{
    let mut reader = hound::WavReader::new(std::io::Cursor::new(bytes)).map_err(|e| e.to_string())?;
    let spec = reader.spec();
    let samples = reader.samples::<i16>().collect::<Result<Vec<i16>, _>>().map_err(|e| e.to_string())?;
    Ok((spec.sample_rate, spec.channels, samples))
}

/// Writes 16-bit mono samples at `sample_rate` as a WAV file in memory.
pub fn wav_bytes_i16_mono(samples: &[i16], sample_rate: u32) -> (r: Result<Vec<u8>, AudioError>)
    requires
        wav_i16_mono_encodable(samples@.len() as int, sample_rate),
    ensures
        r is Ok,
        r matches Ok(b) ==> b@ == pcm16_mono_wav(samples@, sample_rate),
{
    match hound_write_i16(samples, crate::audio::TARGET_CHANNELS, sample_rate, crate::audio::TARGET_BITS) {
        Ok(b) => Ok(b),
        Err(e) => Err(AudioError::Wav(e)),
    }
}

/// Reads a WAV file held in memory as `i16` samples: `(sample rate,
/// channels, samples)`. A file written by `wav_bytes_i16_mono` reads back as
/// exactly what was written.
pub fn read_wav_i16_mono_bytes(bytes: &[u8]) -> (r: Result<(u32, u16, Vec<i16>), AudioError>)
    ensures
        r is Ok <==> hound_read_i16(bytes@) is Some,
        r matches Ok(t) ==> hound_read_i16(bytes@) == Some((t.0, t.1, t.2@)),
        r matches Err(e) ==> e is Wav,
        forall|s: Seq<i16>, rate: u32|
            #![trigger pcm16_mono_wav(s, rate)]
            bytes@ == pcm16_mono_wav(s, rate) && wav_i16_mono_encodable(s.len() as int, rate)
                ==> (r matches Ok(t) && t.0 == rate && t.1 == 1 && t.2@ == s),
{
    let r = hound_read_samples_i16(bytes);
    proof {
        assert forall|s: Seq<i16>, rate: u32|
            #![trigger pcm16_mono_wav(s, rate)]
            bytes@ == pcm16_mono_wav(s, rate) && wav_i16_mono_encodable(s.len() as int, rate)
                implies (r matches Ok(t) && t.0 == rate && t.1 == 1 && t.2@ == s) by {
            assert(is_pcm16_mono_wav(bytes@));
            if let Ok(t) = r {
                pcm16_mono_wav_injective(s, rate, t.2@, t.0);
            }
        }
    }
    match r {
        Ok(t) => Ok(t),
        Err(e) => Err(AudioError::Wav(e)),
    }
}

/// The file name of a pending recording stamped `stamp_ms` milliseconds
/// after the Unix epoch: `rec-<stamp>.wav`.
pub open spec fn pending_file_name(stamp_ms: u128) -> Seq<char> {
    "rec-"@ + decimal(stamp_ms as nat) + ".wav"@
}

/// The `k`-th name tried for a pending recording stamped `stamp_ms`:
/// `rec-<stamp>.wav` first, then `rec-<stamp>-<k>.wav` for `k = 1, 2, ...`.
pub open spec fn pending_candidate(stamp_ms: u128, k: nat) -> Seq<char> {
    if k == 0 {
        pending_file_name(stamp_ms)
    } else {
        "rec-"@ + decimal(stamp_ms as nat) + "-"@ + decimal(k) + ".wav"@
    }
}

/// Whether one of `names` is `name`.
pub open spec fn name_taken(names: Seq<String>, name: Seq<char>) -> bool {
    exists|i: int| 0 <= i < names.len() && names[i]@ == name
}

/// Whether `name` is the first candidate for `stamp_ms` that is not among
/// `names`.
pub open spec fn first_free_candidate(names: Seq<String>, stamp_ms: u128, name: Seq<char>) -> bool {
    &&& !name_taken(names, name)
    &&& exists|k: nat|
        #![trigger pending_candidate(stamp_ms, k)]
        name == pending_candidate(stamp_ms, k) && forall|j: nat|
            j < k ==> name_taken(names, #[trigger] pending_candidate(stamp_ms, j))
}

/// Two different candidates never have the same name.
proof fn lemma_candidates_distinct(stamp_ms: u128, j: nat, k: nat)
    requires
        j != k,
    ensures
        pending_candidate(stamp_ms, j) != pending_candidate(stamp_ms, k),
{
    lemma_decimal_len(j);
    lemma_decimal_len(k);
    let d = decimal(stamp_ms as nat);
    let q = "rec-"@ + d + "-"@;
    let cj = pending_candidate(stamp_ms, j);
    let ck = pending_candidate(stamp_ms, k);
    let p = "rec-"@ + d;
    let w = ".wav"@;
    if j == 0 {
        assert(cj.len() == p.len() + w.len());
        assert(ck.len() == q.len() + decimal(k).len() + w.len());
    } else if k == 0 {
        assert(ck.len() == p.len() + w.len());
        assert(cj.len() == q.len() + decimal(j).len() + w.len());
    } else if cj == ck {
        let dj = decimal(j);
        let dk = decimal(k);
        assert(cj =~= q + dj + ".wav"@);
        assert(ck =~= q + dk + ".wav"@);
        assert(dj.len() == dk.len());
        assert(dj =~= cj.subrange(q.len() as int, (q.len() + dj.len()) as int));
        assert(dk =~= ck.subrange(q.len() as int, (q.len() + dk.len()) as int));
        lemma_decimal_injective(j, k);
    }
}

/// One of the first `names.len() + 1` candidates is not among `names`, as
/// these candidates are all different.
proof fn lemma_some_candidate_free(names: Seq<String>, stamp_ms: u128)
    ensures
        exists|j: nat|
            j <= names.len() && !name_taken(names, #[trigger] pending_candidate(stamp_ms, j)),
{
    if forall|j: nat| j <= names.len() ==> name_taken(names, #[trigger] pending_candidate(stamp_ms, j)) {
        // Then the `n + 1` different candidates all lie in the set of the
        // `n` names, which is too small to hold them.
        lemma_candidates_fit_in_names(names, stamp_ms);
    }
}

proof fn lemma_candidates_fit_in_names(names: Seq<String>, stamp_ms: u128)
    requires
        forall|j: nat| j <= names.len() ==> name_taken(names, #[trigger] pending_candidate(stamp_ms, j)),
    ensures
        Seq::new(names.len() + 1, |k: int| pending_candidate(stamp_ms, k as nat)).to_set().len()
            <= names.map_values(|s: String| s@).to_set().len() <= names.len(),
        Seq::new(names.len() + 1, |k: int| pending_candidate(stamp_ms, k as nat)).to_set().len()
            == names.len() + 1,
{
    let n = names.len();
    let cands = Seq::new(n + 1, |k: int| pending_candidate(stamp_ms, k as nat));
    let views = names.map_values(|s: String| s@);
    assert(cands.no_duplicates()) by {
        assert forall|a: int, b: int| 0 <= a < cands.len() && 0 <= b < cands.len() && a != b
            implies cands[a] != cands[b] by {
            lemma_candidates_distinct(stamp_ms, a as nat, b as nat);
        }
    }
    cands.unique_seq_to_set();
    views.lemma_cardinality_of_set();
    assert(cands.to_set().subset_of(views.to_set())) by {
        assert forall|c: Seq<char>| cands.to_set().contains(c) implies views.to_set().contains(c) by {
            let k = choose|k: int| 0 <= k < cands.len() && cands[k] == c;
            assert(name_taken(names, pending_candidate(stamp_ms, k as nat)));
            let i = choose|i: int| 0 <= i < names.len() && names[i]@ == c;
            assert(views[i] == c);
        }
    }
    vstd::seq_lib::seq_to_set_is_finite(views);
    vstd::set_lib::lemma_len_subset(cands.to_set(), views.to_set());
}

/// Whether `name` is one of `names`.
fn name_in(names: &[String], name: &str) -> (b: bool)
    ensures
        b == name_taken(names@, name@),
{
    let mut i: usize = 0;
    while i < names.len()
        invariant
            i <= names@.len(),
            forall|j: int| 0 <= j < i ==> names@[j]@ != name@,
        decreases names.len() - i,
    {
        if str_equal(names[i].as_str(), name) {
            return true;
        }
        i += 1;
    }
    false
}

/// The `k`-th candidate name for a recording stamped `stamp_ms`.
fn pending_candidate_name(stamp_ms: u128, k: usize) -> (s: String)
    ensures
        s@ == pending_candidate(stamp_ms, k as nat),
{
    let base = String::from_str("rec-").concat(decimal_string(stamp_ms).as_str());
    if k == 0 {
        base.concat(".wav")
    } else {
        base.concat("-").concat(decimal_string(k as u128).as_str()).concat(".wav")
    }
}

/// The name under which a recording stamped `stamp_ms` is stored, given the
/// names already present in the pending directory: the first of
/// `rec-<stamp>.wav`, `rec-<stamp>-1.wav`, `rec-<stamp>-2.wav`, ... that is
/// not taken, so an earlier recording is never overwritten.
pub fn pending_name(stamp_ms: u128, existing: &[String]) -> (name: String)
    ensures
        first_free_candidate(existing@, stamp_ms, name@),
{
    let mut k: usize = 0;
    loop
        invariant
            k <= existing@.len(),
            forall|j: nat| j < k ==> name_taken(existing@, #[trigger] pending_candidate(stamp_ms, j)),
        decreases existing@.len() - k,
    {
        let name = pending_candidate_name(stamp_ms, k);
        if !name_in(existing, name.as_str()) {
            assert(name@ == pending_candidate(stamp_ms, k as nat));
            return name;
        }
        if k == existing.len() {
            proof {
                lemma_some_candidate_free(existing@, stamp_ms);
                let j = choose|j: nat|
                    j <= existing@.len() && !name_taken(existing@, #[trigger] pending_candidate(stamp_ms, j));
                if j < k {
                } else {
                    assert(pending_candidate(stamp_ms, j) == name@);
                }
            }
        }
        k += 1;
    }
}

/// A name chosen for a new recording is never the name of a file that was
/// already pending when it was chosen.
pub proof fn pending_names_never_collide(
    existing: Seq<String>,
    stamp_ms: u128,
    earlier: Seq<char>,
    later: Seq<char>,
)
    requires
        name_taken(existing, earlier),
        first_free_candidate(existing, stamp_ms, later),
    ensures
        earlier != later,
{
}

/// A recording ready to be stored under `pending/`.
#[derive(Debug)]
pub struct PendingWav {
    /// File name inside the pending directory.
    pub file_name: String,
    /// The WAV file's bytes.
    pub bytes: Vec<u8>,
}

/// The pending file for a recording stamped `stamp_ms`: a name that none of
/// the `existing` pending files has (see `pending_name`) and its WAV bytes.
/// Unprocessed audio is kept there until it has been handled.
pub fn write_pending_wav(
    samples: &[i16],
    sample_rate: u32,
    stamp_ms: u128,
    existing: &[String],
) -> (r: Result<PendingWav, AudioError>)
    requires
        wav_i16_mono_encodable(samples@.len() as int, sample_rate),
    ensures
        r is Ok,
        r matches Ok(p) ==> first_free_candidate(existing@, stamp_ms, p.file_name@) && p.bytes@
            == pcm16_mono_wav(samples@, sample_rate),
{
    let bytes = wav_bytes_i16_mono(samples, sample_rate)?;
    let file_name = pending_name(stamp_ms, existing);
    Ok(PendingWav { file_name, bytes })
}

/// Whether `path` lies inside `base`, compared component by component as
/// `std::path::Path::starts_with` does.
pub uninterp spec fn path_starts_with(path: Seq<char>, base: Seq<char>) -> bool;

/// `std::path::Path::starts_with` on the two paths. Claims only that the
/// answer is `path_starts_with` of the two texts.
#[verifier::external_body]
fn path_is_under(path: &str, base: &str) -> (r: bool)
    ensures
        r == path_starts_with(path@, base@),
{
    std::path::Path::new(path).starts_with(base)
}

/// Whether `p` is an absolute path (it starts with '/').
pub open spec fn is_absolute(p: Seq<char>) -> bool {
    p.len() > 0 && p[0] == '/'
}

/// The components that remain once component `c` is taken into account,
/// when those before it resolved to `st`: an empty component and `.` add
/// nothing; `..` removes the last name, and with no name left to remove it is
/// dropped in an absolute path (the root's parent is the root) and kept in a
/// relative one; any other component is added.
pub open spec fn resolve_component(st: Seq<Seq<char>>, c: Seq<char>, absolute: bool) -> Seq<
    Seq<char>,
> {
    if c.len() == 0 || c == "."@ {
        st
    } else if c == ".."@ {
        if st.len() > 0 && st.last() != ".."@ {
            st.drop_last()
        } else if absolute {
            st
        } else {
            st.push(c)
        }
    } else {
        st.push(c)
    }
}

/// Reading `p` from the left: the components resolved so far, and the text
/// of the component being read.
pub open spec fn resolve_scan(p: Seq<char>, absolute: bool) -> (Seq<Seq<char>>, Seq<char>)
    decreases p.len(),
{
    if p.len() == 0 {
        (Seq::empty(), Seq::empty())
    } else {
        let (st, cur) = resolve_scan(p.drop_last(), absolute);
        if p.last() == '/' {
            (resolve_component(st, cur, absolute), Seq::empty())
        } else {
            (st, cur.push(p.last()))
        }
    }
}

/// The components of `p` once `.` and `..` are resolved lexically.
pub open spec fn resolved_components(p: Seq<char>) -> Seq<Seq<char>> {
    let (st, cur) = resolve_scan(p, is_absolute(p));
    resolve_component(st, cur, is_absolute(p))
}

/// `p` with `.`, `..` and repeated separators resolved lexically, without
/// looking at the file system: "/" before the components of an absolute
/// path, "." for a relative path that resolves to nothing.
pub open spec fn lexically_normal(p: Seq<char>) -> Seq<char> {
    let body = join_with(resolved_components(p), "/"@);
    if is_absolute(p) {
        "/"@ + body
    } else if body.len() == 0 {
        "."@
    } else {
        body
    }
}

/// The texts of some strings.
pub open spec fn texts(v: Seq<String>) -> Seq<Seq<char>> {
    v.map_values(|s: String| s@)
}

/// Takes the finished component `c` into the resolved components `stack`.
fn resolve_into(stack: &mut Vec<String>, c: String, absolute: bool)
    ensures
        texts(final(stack)@) == resolve_component(texts(old(stack)@), c@, absolute),
{
    if c.as_str().is_empty() || str_equal(c.as_str(), ".") {
        return ;
    }
    if str_equal(c.as_str(), "..") {
        let n = stack.len();
        if n > 0 && !str_equal(stack[n - 1].as_str(), "..") {
            stack.pop();
            assert(texts(stack@) =~= texts(old(stack)@).drop_last());
        } else if !absolute {
            stack.push(c);
            assert(texts(stack@) =~= texts(old(stack)@).push(c@));
        }
    } else {
        stack.push(c);
        assert(texts(stack@) =~= texts(old(stack)@).push(c@));
    }
}

/// `path` with `.`, `..` and repeated separators resolved lexically (see
/// `lexically_normal`).
pub fn lexically_normal_path(path: &str) -> (s: String)
    ensures
        s@ == lexically_normal(path@),
{
    let n = path.unicode_len();
    let absolute = n > 0 && path.get_char(0) == '/';
    let mut stack: Vec<String> = Vec::new();
    let mut cur = String::new();
    let mut i: usize = 0;
    assert(path@.take(0) =~= Seq::<char>::empty());
    while i < n
        invariant
            n == path@.len(),
            i <= n,
            absolute == is_absolute(path@),
            (texts(stack@), cur@) == resolve_scan(path@.take(i as int), absolute),
        decreases n - i,
    {
        let c = path.get_char(i);
        assert(path@.take(i + 1).drop_last() =~= path@.take(i as int));
        if c == '/' {
            let done = cur;
            cur = String::new();
            resolve_into(&mut stack, done, absolute);
        } else {
            let old_cur = Ghost(cur@);
            cur.append(path.substring_char(i, i + 1));
            assert(cur@ =~= old_cur@.push(c));
        }
        i += 1;
    }
    assert(path@.take(n as int) =~= path@);
    resolve_into(&mut stack, cur, absolute);
    let ghost parts = texts(stack@);
    let mut body = String::new();
    let count: usize = stack.len();
    let mut j: usize = 0;
    while j < count
        invariant
            count == stack@.len(),
            parts == texts(stack@),
            j <= count,
            body@ == join_with(parts.take(j as int), "/"@),
        decreases count - j,
    {
        if j > 0 {
            body.append("/");
        }
        body.append(stack[j].as_str());
        proof {
            assert(parts.take(j + 1).drop_last() =~= parts.take(j as int));
            assert(parts.take(j + 1).last() == parts[j as int]);
            if j == 0 {
                assert(body@ =~= join_with(parts.take(1), "/"@));
            }
        }
        j += 1;
    }
    assert(parts.take(count as int) =~= parts);
    if absolute {
        String::from_str("/").concat(body.as_str())
    } else if body.as_str().is_empty() {
        String::from_str(".")
    } else {
        body
    }
}

/// The message of a refused removal of `path`.
pub open spec fn outside_pending_message(path: Seq<char>) -> Seq<char> {
    "yol pending/ altında değil, silinmedi: "@ + path
}

/// The guard in front of deleting a processed recording: only files under
/// the pending directory may be removed. Both paths are first resolved
/// lexically, so `..` that leads out of the directory is refused while a
/// path that stays inside it is accepted.
pub fn check_pending_removal(path: &str, pending: &str) -> (r: Result<(), AudioError>)
    ensures
        r is Ok <==> path_starts_with(lexically_normal(path@), lexically_normal(pending@)),
        r matches Err(e) ==> (e matches AudioError::Wav(m) && m@ == outside_pending_message(path@)),
{
    let normal_path = lexically_normal_path(path);
    let normal_pending = lexically_normal_path(pending);
    if path_is_under(normal_path.as_str(), normal_pending.as_str()) {
        Ok(())
    } else {
        Err(AudioError::Wav(String::from_str("yol pending/ altında değil, silinmedi: ").concat(path)))
    }
}

/// How deleting a file went.
#[derive(Debug, Clone, PartialEq, Eq)]
pub enum RemoveOutcome {
    Removed,
    /// The file did not exist.
    NotFound,
    /// Any other failure, with its message.
    Failed(String),
}

/// The result of removing a pending file: a file that is already gone counts
/// as removed; any other failure is an I/O error.
pub fn removal_result(outcome: RemoveOutcome) -> (r: Result<(), AudioError>)
    ensures
        match outcome {
            RemoveOutcome::Removed | RemoveOutcome::NotFound => r is Ok,
            RemoveOutcome::Failed(m) => r matches Err(AudioError::Io(e)) && e@ == m@,
        },
{
    match outcome {
        RemoveOutcome::Removed | RemoveOutcome::NotFound => Ok(()),
        RemoveOutcome::Failed(m) => Err(AudioError::Io(m)),
    }
}

} // verus!
