//! Persistence of the clipboard history, action history, tags and custom prompts: the
//! statements run, and what is made of their results.
pub mod database;
pub mod clipboard_history;
pub mod action_history;
pub mod clipboard_tags;
pub mod custom_prompts;
pub mod migrations;
