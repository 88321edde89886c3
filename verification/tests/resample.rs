use mirilti::audio::resample::{downmix_stereo_to_mono, downmix_to_mono, to_mono_16k, MonoConversion};

/// A constant-amplitude sine wave.
fn sine(amp: i16, freq: f32, rate: u32, frames: usize) -> Vec<i16> {
    (0..frames)
        .map(|i| (amp as f32 * (2.0 * core::f32::consts::PI * freq * i as f32 / rate as f32).sin()) as i16)
        .collect()
}

#[test]
fn stereo_downmix_averages_channels() {
    let src = [1000i16, 2000, 1000, 2000, 1000, 2000];
    let mono = downmix_stereo_to_mono(&src);
    assert_eq!(mono, vec![1500, 1500, 1500]);
}

#[test]
fn stereo_downmix_handles_extremes() {
    let src = [32767i16, 32767, 32767, -32768, -32768, -32768];
    let mono = downmix_stereo_to_mono(&src);
    assert_eq!(mono, vec![32767, 0, -32768]);
}

#[test]
fn downmix_mono_is_identity() {
    let src = [5i16, -9, 300, -299];
    assert_eq!(downmix_to_mono(&src, 1), src.to_vec());
}

#[test]
fn direct_to_mono_16k_when_already_16k_mono() {
    let src = sine(8000, 440.0, 16_000, 512);
    match to_mono_16k(&src, 1, 16_000) {
        MonoConversion::Ready(out) => assert_eq!(out, src),
        other => panic!("unexpected conversion: {other:?}"),
    }
}

#[test]
fn downmix_rounds_toward_zero() {
    // (-3 + 0) / 2 = -1.5 -> -1 ; (3 + 0) / 2 = 1.5 -> 1 ; three channels: (1 + 1 + 2) / 3 -> 1
    assert_eq!(downmix_to_mono(&[-3, 0, 3, 0], 2), vec![-1, 1]);
    assert_eq!(downmix_to_mono(&[1, 1, 2, -1, -1, -2], 3), vec![1, -1]);
}

#[test]
fn downmix_drops_partial_frame() {
    assert_eq!(downmix_to_mono(&[10, 20, 30, 40, 50], 2), vec![15, 35]);
    assert_eq!(downmix_to_mono(&[10], 2), Vec::<i16>::new());
}

#[test]
fn downmix_zero_channels_is_identity() {
    assert_eq!(downmix_to_mono(&[7, 8, 9], 0), vec![7, 8, 9]);
}

#[test]
fn downmix_six_channels_of_equal_value() {
    let src = vec![-1234i16; 12];
    assert_eq!(downmix_to_mono(&src, 6), vec![-1234, -1234]);
}

#[test]
fn to_mono_16k_downmixes_stereo_at_target_rate() {
    match to_mono_16k(&[100, 300, -100, -301], 2, 16_000) {
        MonoConversion::Ready(out) => assert_eq!(out, vec![200, -200]),
        other => panic!("unexpected conversion: {other:?}"),
    }
}

#[test]
fn to_mono_16k_asks_for_resampling_at_other_rates() {
    match to_mono_16k(&[100, 300, -100, -301], 2, 48_000) {
        MonoConversion::NeedsResample { mono, from_rate } => {
            assert_eq!(mono, vec![200, -200]);
            assert_eq!(from_rate, 48_000);
        }
        other => panic!("unexpected conversion: {other:?}"),
    }
    match to_mono_16k(&[1, 2, 3], 1, 44_100) {
        MonoConversion::NeedsResample { mono, from_rate } => {
            assert_eq!(mono, vec![1, 2, 3]);
            assert_eq!(from_rate, 44_100);
        }
        other => panic!("unexpected conversion: {other:?}"),
    }
}
