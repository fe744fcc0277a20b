//! Actions defined by plugin files, and the plugin store.
pub mod schema;
pub mod plugin_action;
pub mod store;
pub mod loader;
