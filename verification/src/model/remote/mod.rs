//! Remote inference endpoints.
pub mod openai_compat;
pub mod stream;
