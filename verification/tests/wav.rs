use mirilti::audio::wav::{
    check_pending_removal, lexically_normal_path, pending_name, read_wav_i16_mono_bytes, removal_result, wav_bytes_i16_mono,
    write_pending_wav, RemoveOutcome,
};
use mirilti::audio::AudioError;

#[test]
fn write_and_read_roundtrip() {
    let samples: Vec<i16> = (0..1000).map(|i| (i as i16) * 10).collect();
    let bytes = wav_bytes_i16_mono(&samples, 16_000).expect("yazma başarılı");
    let (rate, channels, read) = read_wav_i16_mono_bytes(&bytes).expect("okuma başarılı");
    assert_eq!(rate, 16_000);
    assert_eq!(channels, 1);
    assert_eq!(read.len(), samples.len());
    for (a, b) in read.iter().zip(&samples) {
        assert_eq!(a, b);
    }
}

#[test]
fn wav_bytes_parses_back() {
    let samples = vec![0i16, 1000, -1000, 32767, -32768];
    let bytes = wav_bytes_i16_mono(&samples, 16_000).expect("bytes yazma");
    assert!(bytes.len() > 44);
    let mut reader = hound::WavReader::new(std::io::Cursor::new(bytes)).expect("parse");
    let spec = reader.spec();
    assert_eq!(spec.sample_rate, 16_000);
    assert_eq!(spec.channels, 1);
    let read: Vec<i16> = reader.samples::<i16>().collect::<Result<_, _>>().expect("örnekler");
    assert_eq!(read, samples);
}

#[test]
fn write_pending_produces_readable_wav() {
    let samples = vec![500i16, -500, 300, -300];
    let pending = write_pending_wav(&samples, 16_000, 1_700_000_000_123, &[]).expect("pending yazma");
    assert_eq!(pending.file_name, "rec-1700000000123.wav");
    let (rate, channels, read) = read_wav_i16_mono_bytes(&pending.bytes).expect("okuma");
    assert_eq!(rate, 16_000);
    assert_eq!(channels, 1);
    assert_eq!(read, samples);
}

#[test]
fn remove_pending_guards_outsiders() {
    let pending = "/home/u/.local/share/mirilti/pending";
    assert!(check_pending_removal("/tmp/mirilti-out-1.wav", pending).is_err());
    assert!(check_pending_removal("/home/u/.local/share/mirilti/pending/missing-1.wav", pending).is_ok());
    assert!(removal_result(RemoveOutcome::NotFound).is_ok());
}

#[test]
fn wav_header_is_the_canonical_layout() {
    let bytes = wav_bytes_i16_mono(&[1, -2], 16_000).unwrap();
    let expected: Vec<u8> = vec![
        b'R', b'I', b'F', b'F', 40, 0, 0, 0, b'W', b'A', b'V', b'E', b'f', b'm', b't', b' ', 16, 0, 0, 0, 1, 0,
        1, 0, 0x80, 0x3e, 0, 0, 0x00, 0x7d, 0, 0, 2, 0, 16, 0, b'd', b'a', b't', b'a', 4, 0, 0, 0, 1, 0, 0xfe,
        0xff,
    ];
    assert_eq!(bytes, expected);
}

#[test]
fn empty_recording_is_a_bare_header() {
    let bytes = wav_bytes_i16_mono(&[], 48_000).unwrap();
    assert_eq!(bytes.len(), 44);
    let (rate, channels, read) = read_wav_i16_mono_bytes(&bytes).unwrap();
    assert_eq!((rate, channels, read), (48_000, 1, vec![]));
}

#[test]
fn garbage_is_not_a_wav() {
    match read_wav_i16_mono_bytes(b"not a wav file at all") {
        Err(AudioError::Wav(_)) => {}
        other => panic!("unexpected: {other:?}"),
    }
}

#[test]
fn pending_name_of_zero_stamp() {
    let p = write_pending_wav(&[], 16_000, 0, &[]).unwrap();
    assert_eq!(p.file_name, "rec-0.wav");
    let p = write_pending_wav(&[], 16_000, u128::MAX, &[]).unwrap();
    assert_eq!(p.file_name, format!("rec-{}.wav", u128::MAX));
}

#[test]
fn refused_removal_names_the_path() {
    let e = check_pending_removal("/etc/passwd", "/data/pending").unwrap_err();
    assert_eq!(e, AudioError::Wav("yol pending/ altında değil, silinmedi: /etc/passwd".to_string()));
    assert!(check_pending_removal("/data/pendingx/a.wav", "/data/pending").is_err());
    assert_eq!(removal_result(RemoveOutcome::Removed), Ok(()));
    assert_eq!(
        removal_result(RemoveOutcome::Failed("izin yok".to_string())),
        Err(AudioError::Io("izin yok".to_string()))
    );
}

#[test]
fn same_millisecond_recordings_get_distinct_names() {
    let mut existing: Vec<String> = Vec::new();
    let first = write_pending_wav(&[1, 2], 16_000, 5, &existing).unwrap();
    assert_eq!(first.file_name, "rec-5.wav");
    existing.push(first.file_name.clone());
    let second = write_pending_wav(&[3, 4], 16_000, 5, &existing).unwrap();
    assert_eq!(second.file_name, "rec-5-1.wav");
    existing.push(second.file_name.clone());
    assert_eq!(pending_name(5, &existing), "rec-5-2.wav");
    assert_eq!(read_wav_i16_mono_bytes(&first.bytes).unwrap(), (16_000, 1, vec![1, 2]));
    assert_eq!(read_wav_i16_mono_bytes(&second.bytes).unwrap(), (16_000, 1, vec![3, 4]));
}

#[test]
fn pending_name_skips_only_taken_names() {
    let existing = vec!["rec-7-1.wav".to_string(), "other.wav".to_string()];
    assert_eq!(pending_name(7, &existing), "rec-7.wav");
    let existing = vec!["rec-7.wav".to_string(), "rec-7-2.wav".to_string()];
    assert_eq!(pending_name(7, &existing), "rec-7-1.wav");
    let existing = vec!["rec-12.wav".to_string(), "rec-12-1.wav".to_string(), "rec-12-2.wav".to_string()];
    assert_eq!(pending_name(12, &existing), "rec-12-3.wav");
}

#[test]
fn removal_refuses_paths_that_escape() {
    let pending = "/data/mirilti/pending";
    let e = check_pending_removal("/data/mirilti/pending/../victim.wav", pending).unwrap_err();
    assert_eq!(
        e,
        AudioError::Wav("yol pending/ altında değil, silinmedi: /data/mirilti/pending/../victim.wav".to_string())
    );
    assert!(check_pending_removal("/data/mirilti/pending/sub/../../x.wav", pending).is_err());
    assert!(check_pending_removal("/data/mirilti/pending/..", pending).is_err());
    assert!(check_pending_removal("/data/mirilti/pending/..rec-1.wav", pending).is_ok());
    assert!(check_pending_removal("/data/mirilti/pending/rec-1..wav", pending).is_ok());
    assert!(check_pending_removal("/data/mirilti/pending/./rec-1.wav", pending).is_ok());
}

#[test]
fn removal_accepts_parent_components_that_stay_inside() {
    let pending = "/data/mirilti/pending";
    assert!(check_pending_removal("/data/mirilti/pending/sub/../missing-1.wav", pending).is_ok());
    assert!(check_pending_removal("/data/mirilti/pending//rec-2.wav", pending).is_ok());
    let dotted = "/data/x/../mirilti/pending";
    assert!(check_pending_removal("/data/x/../mirilti/pending/missing-1.wav", dotted).is_ok());
    assert!(check_pending_removal("/data/mirilti/pending/missing-1.wav", dotted).is_ok());
    assert!(check_pending_removal("/data/x/../mirilti/other.wav", dotted).is_err());
}

#[test]
fn lexical_normalisation() {
    assert_eq!(lexically_normal_path("/a/b/../c"), "/a/c");
    assert_eq!(lexically_normal_path("/a//./b/"), "/a/b");
    assert_eq!(lexically_normal_path("/../x"), "/x");
    assert_eq!(lexically_normal_path("/"), "/");
    assert_eq!(lexically_normal_path("a/../.."), "..");
    assert_eq!(lexically_normal_path("../../a/b/.."), "../../a");
    assert_eq!(lexically_normal_path("a/.."), ".");
    assert_eq!(lexically_normal_path(""), ".");
    assert_eq!(lexically_normal_path("pending/..x/y"), "pending/..x/y");
}
