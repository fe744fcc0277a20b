//! The commands the application exposes, reduced to the decisions and data they make.
pub mod action_cmds;
pub mod plugin_cmds;
pub mod clipboard_cmds;
pub mod history_cmds;
pub mod stats_cmds;
pub mod model_cmds;
pub mod config_cmds;
