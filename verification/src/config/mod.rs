//! The application configuration, its defaults, its edits, and the privacy rules.
pub mod schema;
pub mod privacy;
pub mod manager;
