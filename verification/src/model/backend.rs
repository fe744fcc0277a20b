//! Data exchanged with inference backends.
use vstd::prelude::*;

verus! {

/// A piece of a streamed answer.
#[derive(Debug, Clone)]
pub enum StreamChunk {
    /// Reasoning text from the model.
    Thinking(String),
    /// A piece of the answer itself.
    Delta(String),
}

/// One chat message.
#[derive(Debug, Clone)]
pub struct ChatMessage {
    /// "system", "user" or "assistant".
    pub role: String,
    pub content: String,
}

/// The bits of the `f32` 0.1, a sampling temperature.
pub const TEMPERATURE_0_1: u32 = 0x3dcc_cccd;

/// The bits of the `f32` 0.2.
pub const TEMPERATURE_0_2: u32 = 0x3e4c_cccd;

/// The bits of the `f32` 0.3.
pub const TEMPERATURE_0_3: u32 = 0x3e99_999a;

/// The bits of the `f32` 0.5.
pub const TEMPERATURE_0_5: u32 = 0x3f00_0000;

/// A chat request. The sampling temperature is kept as the bits of an `f32`.
#[derive(Debug, Clone)]
pub struct ChatRequest {
    pub messages: Vec<ChatMessage>,
    pub max_tokens: Option<u32>,
    pub temperature_bits: Option<u32>,
    /// Whether deep thinking is asked for (`None`: the model decides; `Some(false)`: off).
    pub thinking: Option<bool>,
}

/// A chat answer.
#[derive(Debug, Clone)]
pub struct ChatResponse {
    pub content: String,
    pub model: String,
    pub usage: Option<TokenUsage>,
}

/// Token accounting of an answer.
#[derive(Debug, Clone, Copy)]
pub struct TokenUsage {
    pub prompt_tokens: u32,
    pub completion_tokens: u32,
    pub total_tokens: u32,
}

/// A request with images. The sampling temperature is kept as the bits of an `f32`.
#[derive(Debug, Clone)]
pub struct VisionRequest {
    pub messages: Vec<VisionMessage>,
    pub max_tokens: Option<u32>,
    pub temperature_bits: Option<u32>,
}

/// A message that mixes text and images.
#[derive(Debug, Clone)]
pub struct VisionMessage {
    pub role: String,
    pub content: Vec<VisionContentPart>,
}

/// One part of a vision message.
#[derive(Debug, Clone)]
pub enum VisionContentPart {
    Text { text: String },
    ImageUrl { image_url: ImageUrlDetail },
}

/// An image reference: a data URL or an http URL, with an optional detail level.
#[derive(Debug, Clone)]
pub struct ImageUrlDetail {
    pub url: String,
    /// "low", "high" or "auto".
    pub detail: Option<String>,
}

/// Where inference runs.
#[derive(Debug, Clone)]
pub enum BackendType {
    Rules,
    /// A remote backend, by name.
    Remote(String),
    /// A local engine: "llama_cpp" or "mlx".
    Local(String),
}

/// `m` is a message with this role and content.
pub open spec fn message_is(m: ChatMessage, role: Seq<char>, content: Seq<char>) -> bool {
    m.role@ == role && m.content@ == content
}

/// `r` asks the model with a system prompt and a user message, with these settings.
pub open spec fn chat_request_is(
    r: ChatRequest,
    system: Seq<char>,
    user: Seq<char>,
    max_tokens: Option<u32>,
    temperature_bits: Option<u32>,
    thinking: Option<bool>,
) -> bool {
    &&& r.messages@.len() == 2
    &&& message_is(r.messages@[0], "system"@, system)
    &&& message_is(r.messages@[1], "user"@, user)
    &&& r.max_tokens == max_tokens
    &&& r.temperature_bits == temperature_bits
    &&& r.thinking == thinking
}

/// A chat request with a system prompt and a user message.
pub fn system_and_user(
    system: String,
    user: String,
    max_tokens: Option<u32>,
    temperature_bits: Option<u32>,
    thinking: Option<bool>,
) -> (r: ChatRequest)
    ensures
        chat_request_is(r, system@, user@, max_tokens, temperature_bits, thinking),
{
    let mut messages: Vec<ChatMessage> = Vec::new();
    messages.push(ChatMessage { role: "system".to_owned(), content: system });
    messages.push(ChatMessage { role: "user".to_owned(), content: user });
    ChatRequest { messages, max_tokens, temperature_bits, thinking }
}

} // verus!
