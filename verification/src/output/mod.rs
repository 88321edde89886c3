//! Output side: the clipboard helpers and the paste chain.
pub mod clipboard;
pub mod inject;
