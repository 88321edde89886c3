use mirilti::audio::device::{
    device_index_by_name, input_device_entry, resolve_input_device, sample_kind_name, CaptureFormat, InputDevice,
    SampleKind, SupportedConfig,
};
use mirilti::audio::AudioError;
use mirilti::{greet, overlay_bottom_right};

#[test]
fn direct_format_detection() {
    let f = CaptureFormat { channels: 1, sample_rate: 16_000, sample_format: "i16" };
    assert!(f.is_direct_16k_mono());
    assert!(!CaptureFormat { channels: 2, sample_rate: 16_000, sample_format: "i16" }.is_direct_16k_mono());
    assert!(!CaptureFormat { channels: 1, sample_rate: 48_000, sample_format: "f32" }.is_direct_16k_mono());
    let d = InputDevice { name: "mic".to_string(), is_default: true, native: Some(f) };
    assert!(d.direct_16k_mono());
    let d = InputDevice { name: "mic".to_string(), is_default: true, native: None };
    assert!(!d.direct_16k_mono());
    let f32_mono = CaptureFormat { channels: 1, sample_rate: 16_000, sample_format: "f32" };
    assert!(f32_mono.is_direct_16k_mono());
    let d = InputDevice { name: "mic".to_string(), is_default: false, native: Some(f32_mono) };
    assert!(!d.direct_16k_mono());
}

#[test]
fn capture_format_from_config() {
    let f = CaptureFormat::from_supported(&SupportedConfig {
        channels: 2,
        sample_rate: 48_000,
        sample_format: SampleKind::Float32,
    });
    assert_eq!(f, CaptureFormat { channels: 2, sample_rate: 48_000, sample_format: "f32" });
    assert_eq!(sample_kind_name(SampleKind::U64), "u64");
    assert_eq!(sample_kind_name(SampleKind::Other), "bilinmeyen");
}

#[test]
fn listing_entries() {
    let e = input_device_entry(Some("USB".to_string()), Some("USB"), None);
    assert_eq!((e.name.as_str(), e.is_default), ("USB", true));
    let e = input_device_entry(None, Some("USB"), None);
    assert_eq!((e.name.as_str(), e.is_default), ("(adsız cihaz)", false));
    let e = input_device_entry(Some("A".to_string()), None, None);
    assert!(!e.is_default);
}

#[test]
fn lookup_and_selection() {
    let names = vec![None, Some("a".to_string()), Some("b".to_string()), Some("b".to_string())];
    assert_eq!(device_index_by_name(&names, "b"), Some(2));
    assert_eq!(device_index_by_name(&names, "c"), None);
    assert_eq!(resolve_input_device(Some("b"), Some(7)), Ok(7));
    assert_eq!(
        resolve_input_device::<u8>(Some("c"), None),
        Err(AudioError::DeviceNotAvailable("c".to_string()))
    );
    assert_eq!(resolve_input_device::<u8>(None, None), Err(AudioError::NoInputDevice));
}

#[test]
fn error_messages() {
    assert_eq!(AudioError::NoInputDevice.message(), "giriş cihazı bulunamadı");
    assert_eq!(AudioError::Wav("x".to_string()).message(), "WAV hatası: x");
    assert_eq!(AudioError::DeviceNotAvailable("m".to_string()).message(), "seçili cihaz yok: m");
}

#[test]
fn greeting_and_overlay_position() {
    assert_eq!(greet("Ada"), "Hello, Ada! You've been greeted from Rust!");
    assert_eq!(overlay_bottom_right(0, 0, 1920, 1080, 300, 80), (1596, 976));
    assert_eq!(overlay_bottom_right(-1920, 100, 1920, 1080, 300, 80), (-324, 1076));
}

#[test]
fn every_error_has_its_message() {
    let s = |t: &str| t.to_string();
    let cases = vec![
        (AudioError::IteratingDevices(s("e")), "cihazlar listelenemedi: e"),
        (AudioError::DeviceNotAvailable(s("n")), "seçili cihaz yok: n"),
        (AudioError::NoInputDevice, "giriş cihazı bulunamadı"),
        (AudioError::BadDeviceName(s("n")), "cihaz adı alınamadı: n"),
        (AudioError::NoDefaultConfig, "varsayılan girdi biçimi alınamadı"),
        (AudioError::DefaultConfig(s("e")), "varsayılan girdi biçimi hatası: e"),
        (AudioError::BuildStreamError(s("e")), "ses akışı kurulamadı: e"),
        (AudioError::PlayStreamError(s("e")), "ses akışı başlatılamadı: e"),
        (AudioError::UnsupportedSampleFormat(s("u8")), "desteklenmeyen örnek biçimi: u8"),
        (AudioError::Recording(s("e")), "kayıt hatası: e"),
        (AudioError::Resample(s("e")), "yeniden örnekleme hatası: e"),
        (AudioError::Wav(s("e")), "WAV hatası: e"),
        (AudioError::Io(s("e")), "io hatası: e"),
    ];
    for (e, m) in cases {
        assert_eq!(e.message(), m);
    }
}

#[test]
fn overlay_placement_bounds() {
    assert!(mirilti::overlay_placement_fits(0, 1920, 300));
    assert!(!mirilti::overlay_placement_fits(i32::MAX, 1920, 0));
    assert!(!mirilti::overlay_placement_fits(i32::MIN, 0, 300));
}
