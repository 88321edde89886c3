//! Audio capture subsystem: device formats, sample conversion, downmix,
//! WAV framing and the recording lifecycle. The target format is
//! 16 kHz, mono, 16-bit signed samples.
pub mod device;
pub mod recorder;
pub mod resample;
pub mod wav;

use vstd::prelude::*;

verus! {

/// Target sample rate of every finished recording.
pub const TARGET_SAMPLE_RATE: u32 = 16000;
/// Target channel count of every finished recording.
pub const TARGET_CHANNELS: u16 = 1;
/// Target bit depth of every finished recording.
pub const TARGET_BITS: u16 = 16;

/// Errors of the audio subsystem. Causes reported by the platform audio
/// layer or the file system are carried as their message text.
#[derive(Debug, Clone, PartialEq, Eq)]
pub enum AudioError {
    IteratingDevices(String),
    DeviceNotAvailable(String),
    NoInputDevice,
    BadDeviceName(String),
    NoDefaultConfig,
    DefaultConfig(String),
    BuildStreamError(String),
    PlayStreamError(String),
    UnsupportedSampleFormat(String),
    Recording(String),
    Resample(String),
    Wav(String),
    Io(String),
}

/// `prefix` followed by `detail`.
pub open spec fn prefixed(prefix: Seq<char>, detail: Seq<char>) -> Seq<char> {
    prefix + detail
}

fn join(prefix: &str, detail: &String) -> (s: String)
    ensures
        s@ == prefixed(prefix@, detail@),
{
    String::from_str(prefix).concat(detail.as_str())
}

impl AudioError {
    /// The user-facing text of the error.
    pub open spec fn spec_message(&self) -> Seq<char> {
        match self {
            AudioError::IteratingDevices(e) => prefixed("cihazlar listelenemedi: "@, e@),
            AudioError::DeviceNotAvailable(n) => prefixed("seçili cihaz yok: "@, n@),
            AudioError::NoInputDevice => "giriş cihazı bulunamadı"@,
            AudioError::BadDeviceName(n) => prefixed("cihaz adı alınamadı: "@, n@),
            AudioError::NoDefaultConfig => "varsayılan girdi biçimi alınamadı"@,
            AudioError::DefaultConfig(e) => prefixed("varsayılan girdi biçimi hatası: "@, e@),
            AudioError::BuildStreamError(e) => prefixed("ses akışı kurulamadı: "@, e@),
            AudioError::PlayStreamError(e) => prefixed("ses akışı başlatılamadı: "@, e@),
            AudioError::UnsupportedSampleFormat(f) => prefixed("desteklenmeyen örnek biçimi: "@, f@),
            AudioError::Recording(e) => prefixed("kayıt hatası: "@, e@),
            AudioError::Resample(e) => prefixed("yeniden örnekleme hatası: "@, e@),
            AudioError::Wav(e) => prefixed("WAV hatası: "@, e@),
            AudioError::Io(e) => prefixed("io hatası: "@, e@),
        }
    }

    /// The user-facing text of the error (what the error displays as).
    pub fn message(&self) -> (m: String)
        ensures
            m@ == self.spec_message(),
    {
        match self {
            AudioError::IteratingDevices(e) => join("cihazlar listelenemedi: ", e),
            AudioError::DeviceNotAvailable(n) => join("seçili cihaz yok: ", n),
            AudioError::NoInputDevice => String::from_str("giriş cihazı bulunamadı"),
            AudioError::BadDeviceName(n) => join("cihaz adı alınamadı: ", n),
            AudioError::NoDefaultConfig => String::from_str("varsayılan girdi biçimi alınamadı"),
            AudioError::DefaultConfig(e) => join("varsayılan girdi biçimi hatası: ", e),
            AudioError::BuildStreamError(e) => join("ses akışı kurulamadı: ", e),
            AudioError::PlayStreamError(e) => join("ses akışı başlatılamadı: ", e),
            AudioError::UnsupportedSampleFormat(f) => join("desteklenmeyen örnek biçimi: ", f),
            AudioError::Recording(e) => join("kayıt hatası: ", e),
            AudioError::Resample(e) => join("yeniden örnekleme hatası: ", e),
            AudioError::Wav(e) => join("WAV hatası: ", e),
            AudioError::Io(e) => join("io hatası: ", e),
        }
    }
}

} // verus!
