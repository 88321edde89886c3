//! Input device formats: the native capture format of a device, whether it
//! already matches the 16 kHz mono target, and the choice of the device to
//! record from.
use vstd::prelude::*;

use crate::audio::{AudioError, TARGET_CHANNELS, TARGET_SAMPLE_RATE};
use crate::text::decimal;

verus! {

/// The sample encodings an audio host can report for a device.
#[derive(Debug, Clone, Copy, PartialEq, Eq)]
pub enum SampleKind {
    I8,
    I16,
    I32,
    I64,
    U8,
    U16,
    U32,
    U64,
    Float32,
    Float64,
    /// An encoding this program does not know.
    Other,
}

/// The short name of a sample encoding.
pub open spec fn spec_sample_kind_name(kind: SampleKind) -> Seq<char> {
    match kind {
        SampleKind::I8 => "i8"@,
        SampleKind::I16 => "i16"@,
        SampleKind::I32 => "i32"@,
        SampleKind::I64 => "i64"@,
        SampleKind::U8 => "u8"@,
        SampleKind::U16 => "u16"@,
        SampleKind::U32 => "u32"@,
        SampleKind::U64 => "u64"@,
        SampleKind::Float32 => "f32"@,
        SampleKind::Float64 => "f64"@,
        SampleKind::Other => "bilinmeyen"@,
    }
}

/// The short name of a sample encoding ("i16", "f32", ...).
pub fn sample_kind_name(kind: SampleKind) -> (name: &'static str)
    ensures
        name@ == spec_sample_kind_name(kind),
{
    match kind {
        SampleKind::I8 => "i8",
        SampleKind::I16 => "i16",
        SampleKind::I32 => "i32",
        SampleKind::I64 => "i64",
        SampleKind::U8 => "u8",
        SampleKind::U16 => "u16",
        SampleKind::U32 => "u32",
        SampleKind::U64 => "u64",
        SampleKind::Float32 => "f32",
        SampleKind::Float64 => "f64",
        SampleKind::Other => "bilinmeyen",
    }
}

/// The default stream configuration a device reports: channel count,
/// sample rate and sample encoding.
#[derive(Debug, Clone, Copy, PartialEq, Eq)]
pub struct SupportedConfig {
    pub channels: u16,
    pub sample_rate: u32,
    pub sample_format: SampleKind,
}

/// The native capture format of a device.
#[derive(Debug, Clone, PartialEq, Eq)]
pub struct CaptureFormat {
    /// Channel count (1 mono, 2 stereo, 6 for 5.1, ...).
    pub channels: u16,
    /// Sample rate in Hz (e.g. 48000).
    pub sample_rate: u32,
    /// Sample encoding name: "i16", "u16", "f32", "i32", ...
    pub sample_format: &'static str,
}

impl CaptureFormat {
    /// The capture format described by a device's default configuration.
    pub fn from_supported(cfg: &SupportedConfig) -> (f: CaptureFormat)
        ensures
            f.channels == cfg.channels,
            f.sample_rate == cfg.sample_rate,
            f.sample_format@ == spec_sample_kind_name(cfg.sample_format),
            f.sample_format@ == "i16"@ <==> cfg.sample_format == SampleKind::I16,
    {
        proof {
            sample_kind_names_are_distinct(cfg.sample_format, cfg.sample_format);
        }
        CaptureFormat {
            channels: cfg.channels,
            sample_rate: cfg.sample_rate,
            sample_format: sample_kind_name(cfg.sample_format),
        }
    }

    /// Whether the format is already the 16 kHz mono target.
    pub open spec fn spec_is_direct_16k_mono(&self) -> bool {
        self.channels == TARGET_CHANNELS && self.sample_rate == TARGET_SAMPLE_RATE
    }

    /// Whether the format already is the 16 kHz mono target, so that a
    /// recording needs no resampling.
    pub fn is_direct_16k_mono(&self) -> (b: bool)
        ensures
            b == self.spec_is_direct_16k_mono(),
            b <==> (self.channels == 1 && self.sample_rate == 16000),
    {
        self.channels == TARGET_CHANNELS && self.sample_rate == TARGET_SAMPLE_RATE
    }
}

/// A capture format needs no conversion exactly when it is one channel at
/// 16000 Hz: any other channel count must be downmixed, and any other rate
/// (44100 Hz, 48000 Hz, ...) must be resampled.
pub proof fn direct_means_one_channel_at_16000_hz(f: CaptureFormat)
    ensures
        f.spec_is_direct_16k_mono() <==> (f.channels == 1 && f.sample_rate == 16000),
{
}

/// The width in bits of a known sample encoding (0 for an unknown one).
pub open spec fn sample_bits(kind: SampleKind) -> nat {
    match kind {
        SampleKind::I8 | SampleKind::U8 => 8,
        SampleKind::I16 | SampleKind::U16 => 16,
        SampleKind::I32 | SampleKind::U32 | SampleKind::Float32 => 32,
        SampleKind::I64 | SampleKind::U64 | SampleKind::Float64 => 64,
        SampleKind::Other => 0,
    }
}

/// The family letter of a known sample encoding: 'i' for signed integers,
/// 'u' for unsigned ones, 'f' for floating point.
pub open spec fn sample_family(kind: SampleKind) -> char {
    match kind {
        SampleKind::I8 | SampleKind::I16 | SampleKind::I32 | SampleKind::I64 => 'i',
        SampleKind::U8 | SampleKind::U16 | SampleKind::U32 | SampleKind::U64 => 'u',
        _ => 'f',
    }
}

/// The name of a known encoding is its family letter followed by its width
/// in decimal ("i16", "u8", "f32", ...).
pub proof fn sample_kind_name_is_family_and_width(kind: SampleKind)
    ensures
        kind != SampleKind::Other ==> spec_sample_kind_name(kind) == seq![sample_family(kind)]
            + decimal(sample_bits(kind)),
{
    reveal_strlit("i8");
    reveal_strlit("i16");
    reveal_strlit("i32");
    reveal_strlit("i64");
    reveal_strlit("u8");
    reveal_strlit("u16");
    reveal_strlit("u32");
    reveal_strlit("u64");
    reveal_strlit("f32");
    reveal_strlit("f64");
    reveal_with_fuel(decimal, 2);
    assert(decimal(8) =~= seq!['8']);
    assert(decimal(1) =~= seq!['1']);
    assert(decimal(3) =~= seq!['3']);
    assert(decimal(6) =~= seq!['6']);
    assert(decimal(16) =~= seq!['1', '6']);
    assert(decimal(32) =~= seq!['3', '2']);
    assert(decimal(64) =~= seq!['6', '4']);
    if kind != SampleKind::Other {
        assert(spec_sample_kind_name(kind) =~= seq![sample_family(kind)] + decimal(sample_bits(kind)));
    }
}

/// Different encodings have different names; in particular only `I16` is
/// named "i16" and `I32` is named "i32".
pub proof fn sample_kind_names_are_distinct(a: SampleKind, b: SampleKind)
    ensures
        spec_sample_kind_name(a) == spec_sample_kind_name(b) ==> a == b,
        spec_sample_kind_name(a) == "i16"@ <==> a == SampleKind::I16,
        spec_sample_kind_name(a) == "i32"@ <==> a == SampleKind::I32,
{
    reveal_strlit("i8");
    reveal_strlit("i16");
    reveal_strlit("i32");
    reveal_strlit("i64");
    reveal_strlit("u8");
    reveal_strlit("u16");
    reveal_strlit("u32");
    reveal_strlit("u64");
    reveal_strlit("f32");
    reveal_strlit("f64");
    reveal_strlit("bilinmeyen");
    let na = spec_sample_kind_name(a);
    let nb = spec_sample_kind_name(b);
    // The names differ in their length or in one of their first three
    // characters.
    if na == nb {
        assert(na.len() == nb.len() && na[0] == nb[0] && na[1] == nb[1]);
        if na.len() > 2 {
            assert(na[2] == nb[2]);
        }
    }
    if na == "i16"@ {
        assert(na.len() == 3 && na[0] == 'i' && na[1] == '1' && na[2] == '6');
    }
    if na == "i32"@ {
        assert(na.len() == 3 && na[0] == 'i' && na[1] == '3' && na[2] == '2');
    }
}

/// A listable audio input device.
#[derive(Debug, Clone)]
pub struct InputDevice {
    pub name: String,
    pub is_default: bool,
    /// The device's native capture format; `None` when it could not be read.
    pub native: Option<CaptureFormat>,
}

impl InputDevice {
    /// Whether the device delivers 16 kHz mono `i16` samples directly.
    pub fn direct_16k_mono(&self) -> (b: bool)
        ensures
            b == (self.native matches Some(f) && f.spec_is_direct_16k_mono()
                && f.sample_format@ == "i16"@),
    {
        match &self.native {
            Some(f) => f.is_direct_16k_mono() && str_equal(f.sample_format, "i16"),
            None => false,
        }
    }
}

/// Whether two strings hold the same text.
pub fn str_equal(a: &str, b: &str) -> (r: bool)
    ensures
        r == (a@ == b@),
{
    let x = String::from_str(a);
    let y = String::from_str(b);
    x == y
}

/// The name under which a device whose name cannot be read is listed.
pub open spec fn unnamed_device() -> Seq<char> {
    "(adsız cihaz)"@
}

/// The listing entry of a device: its name (or the placeholder when the name
/// could not be read), whether that name is the default device's name, and
/// its native format.
pub fn input_device_entry(
    name: Option<String>,
    default_name: Option<&str>,
    native: Option<CaptureFormat>,
) -> (d: InputDevice)
    ensures
        d.name@ == (match name {
            Some(n) => n@,
            None => unnamed_device(),
        }),
        d.is_default == (default_name matches Some(dn) && dn@ == d.name@),
        d.native == native,
{
    let name: String = match name {
        Some(n) => n,
        None => String::from_str("(adsız cihaz)"),
    };
    let is_default: bool = match default_name {
        Some(dn) => str_equal(dn, name.as_str()),
        None => false,
    };
    InputDevice { name, is_default, native }
}

/// Whether entry `e` of a device-name list names `name`.
pub open spec fn names_device(e: Option<String>, name: Seq<char>) -> bool {
    e matches Some(n) && n@ == name
}

/// Position of the first device whose (readable) name equals `name`; `None`
/// when no device has that name.
pub fn device_index_by_name(names: &[Option<String>], name: &str) -> (r: Option<usize>)
    ensures
        match r {
            Some(i) => i < names@.len() && names_device(names@[i as int], name@) && forall|j: int|
                0 <= j < i ==> !names_device(#[trigger] names@[j], name@),
            None => forall|j: int| 0 <= j < names@.len() ==> !names_device(#[trigger] names@[j], name@),
        },
{
    let n: usize = names.len();
    let mut i: usize = 0;
    while i < n
        invariant
            n == names@.len(),
            i <= n,
            forall|j: int| 0 <= j < i ==> !names_device(#[trigger] names@[j], name@),
        decreases n - i,
    {
        let hit: bool = match &names[i] {
            Some(dn) => str_equal(dn.as_str(), name),
            None => false,
        };
        if hit {
            return Some(i);
        }
        i = i + 1;
    }
    None
}

/// The device to record from: the one found under the requested name, or the
/// system default when no name was requested. A requested name that was not
/// found is `DeviceNotAvailable`; a missing default is `NoInputDevice`.
pub fn resolve_input_device<D>(requested: Option<&str>, found: Option<D>) -> (r: Result<D, AudioError>)
    ensures
        match (requested, found) {
            (_, Some(d)) => r == Ok::<D, AudioError>(d),
            (Some(n), None) => r matches Err(AudioError::DeviceNotAvailable(m)) && m@ == n@,
            (None, None) => r matches Err(AudioError::NoInputDevice),
        },
{
    match found {
        Some(d) => Ok(d),
        None => match requested {
            Some(n) => Err(AudioError::DeviceNotAvailable(String::from_str(n))),
            None => Err(AudioError::NoInputDevice),
        },
    }
}

} // verus!
