use mirilti::audio::recorder::{
    i32_to_i16, i64_to_i16, i8_to_i16, stop_result, u16_to_i16, u32_to_i16, u64_to_i16, u8_to_i16,
    worker_outcome, RecorderLifecycle, WorkerOutcome, WorkerReply, WorkerSignal,
};
use mirilti::audio::AudioError;

#[test]
fn integer_formats_convert_to_i16() {
    assert_eq!(i8_to_i16(&[-128, 0, 127]), vec![-32768, 0, 32512]);
    assert_eq!(u8_to_i16(&[0, 128, 255]), vec![-32768, 0, 32512]);
    assert_eq!(u16_to_i16(&[0, 32768, 65535]), vec![-32768, 0, 32767]);
    assert_eq!(i32_to_i16(&[i32::MIN, -1, 0, 65535, 65536, i32::MAX]), vec![-32768, -1, 0, 0, 1, 32767]);
    assert_eq!(u32_to_i16(&[0, 1 << 31, u32::MAX]), vec![-32768, 0, 32767]);
    assert_eq!(i64_to_i16(&[i64::MIN, -1, 1 << 48, i64::MAX]), vec![-32768, -1, 1, 32767]);
    assert_eq!(u64_to_i16(&[0, 1 << 63, u64::MAX]), vec![-32768, 0, 32767]);
}

#[test]
fn worker_decisions() {
    assert_eq!(worker_outcome(WorkerSignal::Stop), WorkerOutcome::Finish { auto_stopped: false });
    assert_eq!(worker_outcome(WorkerSignal::Disconnected), WorkerOutcome::Finish { auto_stopped: false });
    assert_eq!(worker_outcome(WorkerSignal::Timeout), WorkerOutcome::Finish { auto_stopped: true });
    assert_eq!(worker_outcome(WorkerSignal::Cancel), WorkerOutcome::Discard);
}

#[test]
fn second_stop_is_refused() {
    let mut rec = RecorderLifecycle::new("cmd", "out");
    assert!(rec.active());
    assert_eq!(rec.begin_finish(), Ok("cmd"));
    assert!(!rec.active());
    assert_eq!(rec.take_result(), Ok("out"));
    assert_eq!(rec.begin_finish(), Err(AudioError::Recording("kayıt aktif değil".to_string())));
    assert_eq!(rec.take_result(), Err(AudioError::Recording("sonuç kanalı eksik".to_string())));
}

#[test]
fn stop_replies() {
    assert_eq!(stop_result(WorkerReply::Recorded(5)), Ok(5));
    assert_eq!(
        stop_result::<u8>(WorkerReply::Canceled),
        Err(AudioError::Recording("kayıt iptal edildi".to_string()))
    );
    assert_eq!(
        stop_result::<u8>(WorkerReply::Gone),
        Err(AudioError::Recording("sürücü sonlandı".to_string()))
    );
}
