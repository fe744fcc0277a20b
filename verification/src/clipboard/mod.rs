//! Watching the clipboard.
pub mod monitor;
