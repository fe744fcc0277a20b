//! A local llama.cpp server reached through its OpenAI-compatible endpoint: where requests
//! go and what is made of its answers. Sending and awaiting is the caller's part.
use vstd::prelude::*;
use crate::model::backend::{BackendType, ChatResponse, TokenUsage};
use crate::model::remote::openai_compat::{endpoint, endpoint_url, strip_trailing};

verus! {

/// A llama.cpp server, by address, serving a model.
pub struct LlamaServerBackend {
    /// The address without trailing slashes, e.g. "http://127.0.0.1:8080".
    pub base_url: String,
    /// The model's name, used when the server does not report one.
    pub model_name: String,
}

/// Token counts as the server reports them, each possibly missing.
#[derive(Debug, Clone, Copy)]
pub struct LlamaUsage {
    pub prompt_tokens: Option<u32>,
    pub completion_tokens: Option<u32>,
    pub total_tokens: Option<u32>,
}

impl LlamaServerBackend {
    /// The backend of the server at `base_url` (trailing slashes dropped) for `model_name`.
    pub fn new(base_url: &str, model_name: &str) -> (r: LlamaServerBackend)
        ensures
            r.base_url@ == strip_trailing(base_url@, '/'),
            r.model_name@ == model_name@,
    {
        proof {
            reveal_strlit("");
        }
        let base = endpoint_url(base_url, "");
        assert(base@ =~= strip_trailing(base_url@, '/'));
        LlamaServerBackend { base_url: base, model_name: model_name.to_owned() }
    }

    /// The address of the chat completions endpoint.
    pub fn chat_url(&self) -> (r: String)
        ensures
            r@ == endpoint(self.base_url@, "/v1/chat/completions"@),
    {
        endpoint_url(self.base_url.as_str(), "/v1/chat/completions")
    }

    /// The address of the health check.
    pub fn health_url(&self) -> (r: String)
        ensures
            r@ == endpoint(self.base_url@, "/health"@),
    {
        endpoint_url(self.base_url.as_str(), "/health")
    }

    /// The kind of this backend: the local llama.cpp engine.
    pub fn backend_type(&self) -> (r: BackendType)
        ensures
            r matches BackendType::Local(e) && e@ == "llama_cpp"@,
    {
        BackendType::Local("llama_cpp".to_owned())
    }

    /// The answer from the server's reply: the first choice's content (empty when there is
    /// none), the model it names (else this backend's), and its token counts with missing
    /// ones as zero.
    pub fn response(&self, first_content: Option<String>, model: Option<String>, usage: Option<LlamaUsage>) -> (r: ChatResponse)
        ensures
            r.content@ == match first_content { Some(c) => c@, None => Seq::empty() },
            r.model@ == match model { Some(m) => m@, None => self.model_name@ },
            r.usage == match usage {
                Some(u) => Some(TokenUsage {
                    prompt_tokens: match u.prompt_tokens { Some(t) => t, None => 0 },
                    completion_tokens: match u.completion_tokens { Some(t) => t, None => 0 },
                    total_tokens: match u.total_tokens { Some(t) => t, None => 0 },
                }),
                None => None,
            },
    {
        let content = match first_content {
            Some(c) => c,
            None => String::new(),
        };
        let model = match model {
            Some(m) => m,
            None => self.model_name.clone(),
        };
        let usage = match usage {
            Some(u) => Some(TokenUsage {
                prompt_tokens: match u.prompt_tokens { Some(t) => t, None => 0 },
                completion_tokens: match u.completion_tokens { Some(t) => t, None => 0 },
                total_tokens: match u.total_tokens { Some(t) => t, None => 0 },
            }),
            None => None,
        };
        ChatResponse { content, model, usage }
    }
}

} // verus!
