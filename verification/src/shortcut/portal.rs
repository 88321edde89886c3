//! The dictation toggle shortcut bound through the global-shortcuts portal,
//! and the portable form of its activation signals.
use vstd::prelude::*;

verus! {

/// The application-side id of the one shortcut that is bound: start/stop
/// dictation.
pub const TOGGLE_DICTATION: &'static str = "toggle-dictation";

/// A state change of a global shortcut, as the portal's `Activated` and
/// `Deactivated` signals report it. `timestamp_ms` is the signal's time in
/// milliseconds, so that hold-to-talk can measure press-to-release.
#[derive(Debug, Clone, PartialEq, Eq)]
pub enum ShortcutEvent {
    /// The shortcut was pressed.
    Activated { shortcut_id: String, timestamp_ms: u64 },
    /// The shortcut was released.
    Deactivated { shortcut_id: String, timestamp_ms: u64 },
}

/// An `Activated` signal of shortcut `shortcut_id` at `timestamp_millis`
/// milliseconds, as an event (the time is kept in 64 bits, as a cast keeps it).
pub fn to_activated(shortcut_id: String, timestamp_millis: u128) -> (e: ShortcutEvent)
    ensures
        e matches ShortcutEvent::Activated { shortcut_id: id, timestamp_ms } && id == shortcut_id
            && timestamp_ms == timestamp_millis as u64,
        timestamp_millis <= u64::MAX ==> (e matches ShortcutEvent::Activated { timestamp_ms, .. }
            && timestamp_ms == timestamp_millis),
{
    ShortcutEvent::Activated { shortcut_id, timestamp_ms: timestamp_millis as u64 }
}

/// A `Deactivated` signal of shortcut `shortcut_id` at `timestamp_millis`
/// milliseconds, as an event (the time is kept in 64 bits, as a cast keeps it).
pub fn to_deactivated(shortcut_id: String, timestamp_millis: u128) -> (e: ShortcutEvent)
    ensures
        e matches ShortcutEvent::Deactivated { shortcut_id: id, timestamp_ms } && id == shortcut_id
            && timestamp_ms == timestamp_millis as u64,
        timestamp_millis <= u64::MAX ==> (e matches ShortcutEvent::Deactivated { timestamp_ms, .. }
            && timestamp_ms == timestamp_millis),
{
    ShortcutEvent::Deactivated { shortcut_id, timestamp_ms: timestamp_millis as u64 }
}

} // verus!
