//! Global shortcut: the dictation toggle and its press/release events.
pub mod portal;
