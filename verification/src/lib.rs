//! Verified core of the ClipBrain clipboard assistant: content classification,
//! the action registry, the text transformations behind the built-in actions,
//! and the state kept for inference backends and the clipboard monitor.
pub mod text;
pub mod foreign;
pub mod classifier;
pub mod actions;
pub mod model;
pub mod encoding;
pub mod errors;
pub mod config;
pub mod commands;
pub mod storage;
pub mod clipboard;
