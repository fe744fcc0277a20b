//! Inference backends: the request and response data, the registry of configured remote
//! backends, request building for OpenAI-compatible endpoints, and the local model catalogue.
pub mod backend;
pub mod remote;
pub mod router;
pub mod state;
pub mod model_manager;
pub mod local;
