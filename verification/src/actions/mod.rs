//! Actions that can be applied to clipboard content, and the registry that lists them.
pub mod traits;
pub mod registry;
pub mod builtin;
pub mod plugin;
