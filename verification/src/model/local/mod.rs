//! Local inference engines.
pub mod llama_server;
