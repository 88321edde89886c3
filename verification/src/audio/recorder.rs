//! Recording lifecycle decisions and the integer sample-format conversions
//! that bring a native capture buffer to interleaved `i16`.
use vstd::prelude::*;

use crate::audio::AudioError;

verus! {

// ---------------------------------------------------------------------------
// Native sample formats to i16
// ---------------------------------------------------------------------------

/// `i8` sample scaled to 16 bits.
pub open spec fn i8_sample(v: i8) -> int {
    v as int * 256
}

/// `u8` sample (offset binary, 128 = silence) re-centred and scaled to 16 bits.
pub open spec fn u8_sample(v: u8) -> int {
    (v as int - 128) * 256
}

/// `u16` sample (offset binary, 32768 = silence) re-centred.
pub open spec fn u16_sample(v: u16) -> int {
    v as int - 32768
}

/// `i32` sample keeping its upper 16 bits (floor of `v / 2^16`).
pub open spec fn i32_sample(v: i32) -> int {
    v as int / 0x1_0000
}

/// `u32` sample keeping its upper 16 bits, re-centred.
pub open spec fn u32_sample(v: u32) -> int {
    v as int / 0x1_0000 - 32768
}

/// `i64` sample keeping its upper 16 bits (floor of `v / 2^48`).
pub open spec fn i64_sample(v: i64) -> int {
    v as int / 0x1_0000_0000_0000
}

/// `u64` sample keeping its upper 16 bits, re-centred.
pub open spec fn u64_sample(v: u64) -> int {
    v as int / 0x1_0000_0000_0000 - 32768
}

/// Converts `i8` samples to `i16`.
pub fn i8_to_i16(src: &[i8]) -> (out: Vec<i16>)
    ensures
        out@.len() == src@.len(),
        forall|i: int| 0 <= i < src@.len() ==> #[trigger] out@[i] as int == i8_sample(src@[i]),
{
    let n: usize = src.len();
    let mut out: Vec<i16> = Vec::with_capacity(n);
    let mut i: usize = 0;
    while i < n
        invariant
            n == src@.len(),
            i <= n,
            out@.len() == i,
            forall|j: int| 0 <= j < i ==> #[trigger] out@[j] as int == i8_sample(src@[j]),
        decreases n - i,
    {
        let v: i8 = src[i];
        out.push((v as i16) * 256);
        i = i + 1;
    }
    out
}

/// Converts `u8` samples to `i16`.
pub fn u8_to_i16(src: &[u8]) -> (out: Vec<i16>)
    ensures
        out@.len() == src@.len(),
        forall|i: int| 0 <= i < src@.len() ==> #[trigger] out@[i] as int == u8_sample(src@[i]),
{
    let n: usize = src.len();
    let mut out: Vec<i16> = Vec::with_capacity(n);
    let mut i: usize = 0;
    while i < n
        invariant
            n == src@.len(),
            i <= n,
            out@.len() == i,
            forall|j: int| 0 <= j < i ==> #[trigger] out@[j] as int == u8_sample(src@[j]),
        decreases n - i,
    {
        let v: u8 = src[i];
        let centred: i16 = v as i16 - 128;
        out.push((centred as i32 * 256) as i16);
        i = i + 1;
    }
    out
}

/// Converts `u16` samples to `i16`.
pub fn u16_to_i16(src: &[u16]) -> (out: Vec<i16>)
    ensures
        out@.len() == src@.len(),
        forall|i: int| 0 <= i < src@.len() ==> #[trigger] out@[i] as int == u16_sample(src@[i]),
{
    let n: usize = src.len();
    let mut out: Vec<i16> = Vec::with_capacity(n);
    let mut i: usize = 0;
    while i < n
        invariant
            n == src@.len(),
            i <= n,
            out@.len() == i,
            forall|j: int| 0 <= j < i ==> #[trigger] out@[j] as int == u16_sample(src@[j]),
        decreases n - i,
    {
        let v: u16 = src[i];
        out.push((v as i32 - 32768) as i16);
        i = i + 1;
    }
    out
}

/// Converts `i32` samples to `i16`.
pub fn i32_to_i16(src: &[i32]) -> (out: Vec<i16>)
    ensures
        out@.len() == src@.len(),
        forall|i: int| 0 <= i < src@.len() ==> #[trigger] out@[i] as int == i32_sample(src@[i]),
{
    let n: usize = src.len();
    let mut out: Vec<i16> = Vec::with_capacity(n);
    let mut i: usize = 0;
    while i < n
        invariant
            n == src@.len(),
            i <= n,
            out@.len() == i,
            forall|j: int| 0 <= j < i ==> #[trigger] out@[j] as int == i32_sample(src@[j]),
        decreases n - i,
    {
        let v: i32 = src[i];
        let w: i32 = v >> 16u32;
        assert(-32768 <= w <= 32767 && w * 65536 <= v && v < w * 65536 + 65536) by (bit_vector)
            requires w == v >> 16u32;
        out.push(w as i16);
        i = i + 1;
    }
    out
}

/// Converts `u32` samples to `i16`.
pub fn u32_to_i16(src: &[u32]) -> (out: Vec<i16>)
    ensures
        out@.len() == src@.len(),
        forall|i: int| 0 <= i < src@.len() ==> #[trigger] out@[i] as int == u32_sample(src@[i]),
{
    let n: usize = src.len();
    let mut out: Vec<i16> = Vec::with_capacity(n);
    let mut i: usize = 0;
    while i < n
        invariant
            n == src@.len(),
            i <= n,
            out@.len() == i,
            forall|j: int| 0 <= j < i ==> #[trigger] out@[j] as int == u32_sample(src@[j]),
        decreases n - i,
    {
        let v: u32 = src[i];
        let w: i64 = (v as i64) >> 16u32;
        assert(0 <= w <= 65535 && w * 65536 <= v && v < w * 65536 + 65536) by (bit_vector)
            requires w == (v as i64) >> 16u32;
        out.push((w - 32768) as i16);
        i = i + 1;
    }
    out
}

/// Converts `i64` samples to `i16`.
pub fn i64_to_i16(src: &[i64]) -> (out: Vec<i16>)
    ensures
        out@.len() == src@.len(),
        forall|i: int| 0 <= i < src@.len() ==> #[trigger] out@[i] as int == i64_sample(src@[i]),
{
    let n: usize = src.len();
    let mut out: Vec<i16> = Vec::with_capacity(n);
    let mut i: usize = 0;
    while i < n
        invariant
            n == src@.len(),
            i <= n,
            out@.len() == i,
            forall|j: int| 0 <= j < i ==> #[trigger] out@[j] as int == i64_sample(src@[j]),
        decreases n - i,
    {
        let v: i64 = src[i];
        let w: i64 = v >> 48u32;
        assert(-32768 <= w <= 32767 && w * 0x1_0000_0000_0000 <= v && v < w * 0x1_0000_0000_0000
            + 0x1_0000_0000_0000) by (bit_vector)
            requires w == v >> 48u32;
        out.push(w as i16);
        i = i + 1;
    }
    out
}

/// Converts `u64` samples to `i16`.
pub fn u64_to_i16(src: &[u64]) -> (out: Vec<i16>)
    ensures
        out@.len() == src@.len(),
        forall|i: int| 0 <= i < src@.len() ==> #[trigger] out@[i] as int == u64_sample(src@[i]),
{
    let n: usize = src.len();
    let mut out: Vec<i16> = Vec::with_capacity(n);
    let mut i: usize = 0;
    while i < n
        invariant
            n == src@.len(),
            i <= n,
            out@.len() == i,
            forall|j: int| 0 <= j < i ==> #[trigger] out@[j] as int == u64_sample(src@[j]),
        decreases n - i,
    {
        let v: u64 = src[i];
        let w: i128 = (v as i128) >> 48u32;
        assert(0 <= w <= 65535 && w * 0x1_0000_0000_0000 <= v && v < w * 0x1_0000_0000_0000
            + 0x1_0000_0000_0000) by (bit_vector)
            requires w == (v as i128) >> 48u32;
        out.push((w - 32768) as i16);
        i = i + 1;
    }
    out
}

// ---------------------------------------------------------------------------
// Recording lifecycle
// ---------------------------------------------------------------------------

/// What ended the capture worker's wait.
#[derive(Debug, Clone, Copy, PartialEq, Eq)]
pub enum WorkerSignal {
    /// The owner asked to stop.
    Stop,
    /// The owner asked to cancel.
    Cancel,
    /// The owner's command channel went away.
    Disconnected,
    /// The maximum duration elapsed.
    Timeout,
}

/// What the capture worker does with the audio it gathered.
#[derive(Debug, Clone, Copy, PartialEq, Eq)]
pub enum WorkerOutcome {
    /// Finalize a recording; `auto_stopped` when the duration limit ended it.
    Finish { auto_stopped: bool },
    /// Throw the audio away.
    Discard,
}

/// The worker's decision for each way its wait can end: stop and a vanished
/// owner keep the audio, the duration limit keeps it and marks it
/// auto-stopped, cancel discards it.
pub fn worker_outcome(signal: WorkerSignal) -> (out: WorkerOutcome)
    ensures
        out == (match signal {
            WorkerSignal::Stop | WorkerSignal::Disconnected => WorkerOutcome::Finish {
                auto_stopped: false,
            },
            WorkerSignal::Timeout => WorkerOutcome::Finish { auto_stopped: true },
            WorkerSignal::Cancel => WorkerOutcome::Discard,
        }),
{
    match signal {
        WorkerSignal::Stop | WorkerSignal::Disconnected => WorkerOutcome::Finish { auto_stopped: false },
        WorkerSignal::Timeout => WorkerOutcome::Finish { auto_stopped: true },
        WorkerSignal::Cancel => WorkerOutcome::Discard,
    }
}

/// What came back from the worker after a stop or cancel request.
#[derive(Debug)]
pub enum WorkerReply<T> {
    /// A finished recording.
    Recorded(T),
    /// The worker discarded the audio.
    Canceled,
    /// The worker ended without answering.
    Gone,
}

/// The message of a lifecycle error.
pub open spec fn recording_error(e: AudioError, msg: Seq<char>) -> bool {
    e matches AudioError::Recording(m) && m@ == msg
}

/// Abstract state of a recording's owner side.
pub struct LifecycleState {
    /// Stop or cancel is still accepted.
    pub active: bool,
    /// The command channel to the worker is still held.
    pub command: bool,
    /// The result channel from the worker is still held.
    pub result: bool,
}

/// Verdict of a stop/cancel request.
#[derive(Debug, Clone, Copy, PartialEq, Eq)]
pub enum FinishVerdict {
    /// The request may be sent.
    Proceed,
    /// The recording was already stopped or canceled.
    NotActive,
    /// The command channel is missing.
    NoCommand,
}

/// A recording accepts stop/cancel exactly while it still holds its
/// command channel.
pub open spec fn lifecycle_consistent(s: LifecycleState) -> bool {
    s.active == s.command
}

/// One stop/cancel request on state `s`: its verdict and the state after it.
pub open spec fn finish_step(s: LifecycleState) -> (FinishVerdict, LifecycleState) {
    if !s.active {
        (FinishVerdict::NotActive, s)
    } else if !s.command {
        (FinishVerdict::NoCommand, s)
    } else {
        (FinishVerdict::Proceed, LifecycleState { active: false, command: false, result: s.result })
    }
}

/// The owner's side of a recording: the command channel `C` to the worker,
/// the result channel `R` from it, and whether the recording is still active.
pub struct RecorderLifecycle<C, R> {
    command: Option<C>,
    result: Option<R>,
    active: bool,
}

impl<C, R> View for RecorderLifecycle<C, R> {
    type V = LifecycleState;

    closed spec fn view(&self) -> LifecycleState {
        LifecycleState {
            active: self.active,
            command: self.command is Some,
            result: self.result is Some,
        }
    }
}

impl<C, R> RecorderLifecycle<C, R> {
    /// A freshly started recording holding both channels.
    pub fn new(command: C, result: R) -> (rec: Self)
        ensures
            rec@ == (LifecycleState { active: true, command: true, result: true }),
    {
        RecorderLifecycle { command: Some(command), result: Some(result), active: true }
    }

    /// Whether the recording is still active.
    pub fn active(&self) -> (b: bool)
        ensures
            b == self@.active,
    {
        self.active
    }

    /// First half of `stop`/`cancel`: hands out the command channel so the
    /// request can be sent, and marks the recording inactive. Refused when the
    /// recording is no longer active or the command channel is gone; a refusal
    /// leaves the state unchanged.
    pub fn begin_finish(&mut self) -> (r: Result<C, AudioError>)
        ensures
            final(self)@ == finish_step(old(self)@).1,
            match finish_step(old(self)@).0 {
                FinishVerdict::Proceed => r is Ok,
                FinishVerdict::NotActive => r matches Err(e) && recording_error(
                    e,
                    "kayıt aktif değil"@,
                ),
                FinishVerdict::NoCommand => r matches Err(e) && recording_error(
                    e,
                    "komut kanalı eksik"@,
                ),
            },
    {
        if !self.active {
            return Err(AudioError::Recording(String::from_str("kayıt aktif değil")));
        }
        match self.command.take() {
            None => Err(AudioError::Recording(String::from_str("komut kanalı eksik"))),
            Some(tx) => {
                self.active = false;
                Ok(tx)
            },
        }
    }

    /// Second half of `stop`/`cancel`: hands out the result channel. Refused
    /// when it was already handed out.
    pub fn take_result(&mut self) -> (r: Result<R, AudioError>)
        ensures
            old(self)@.result ==> (r is Ok && final(self)@ == (LifecycleState {
                result: false,
                ..old(self)@
            })),
            !old(self)@.result ==> (r matches Err(e) && recording_error(
                e,
                "sonuç kanalı eksik"@,
            ) && final(self)@ == old(self)@),
    {
        match self.result.take() {
            None => Err(AudioError::Recording(String::from_str("sonuç kanalı eksik"))),
            Some(rx) => Ok(rx),
        }
    }
}

/// The result of `stop` for the worker's reply: the recording, or an error
/// when it was canceled or the worker vanished.
pub fn stop_result<T>(reply: WorkerReply<T>) -> (r: Result<T, AudioError>)
    ensures
        match reply {
            WorkerReply::Recorded(t) => r == Ok::<T, AudioError>(t),
            WorkerReply::Canceled => r matches Err(e) && recording_error(e, "kayıt iptal edildi"@),
            WorkerReply::Gone => r matches Err(e) && recording_error(e, "sürücü sonlandı"@),
        },
{
    match reply {
        WorkerReply::Recorded(t) => Ok(t),
        WorkerReply::Canceled => Err(AudioError::Recording(String::from_str("kayıt iptal edildi"))),
        WorkerReply::Gone => Err(AudioError::Recording(String::from_str("sürücü sonlandı"))),
    }
}

/// Every lifecycle operation keeps a consistent state consistent: a fresh
/// recording is consistent, and neither a stop/cancel request nor handing
/// out the result channel breaks it; so the "no command channel" refusal
/// never happens to a recording driven only through these operations.
pub proof fn lifecycle_stays_consistent(s: LifecycleState)
    requires
        lifecycle_consistent(s),
    ensures
        lifecycle_consistent(LifecycleState { active: true, command: true, result: true }),
        lifecycle_consistent(finish_step(s).1),
        lifecycle_consistent(LifecycleState { result: false, ..s }),
        finish_step(s).0 != FinishVerdict::NoCommand,
{
}

/// A recording accepts one stop or cancel: once a request went through,
/// every later request is refused as "not active" and changes nothing.
pub proof fn second_finish_is_refused(s: LifecycleState)
    requires
        finish_step(s).0 == FinishVerdict::Proceed,
    ensures
        finish_step(finish_step(s).1).0 == FinishVerdict::NotActive,
        finish_step(finish_step(s).1).1 == finish_step(s).1,
{
}

} // verus!
