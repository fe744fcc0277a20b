//! The client of an OpenAI-compatible endpoint: its settings, the HTTP client made from
//! them, and how each request is addressed and parameterised. Sending and awaiting is the
//! caller's part.
use vstd::prelude::*;
use crate::text::{concat3, opt_text, copy_opt_text};
use crate::model::backend::{BackendType, ChatResponse, TokenUsage, TEMPERATURE_0_3};

verus! {

/// The settings of a remote backend.
#[derive(Debug, Clone)]
pub struct RemoteConfig {
    pub name: String,
    pub base_url: String,
    pub api_key: Option<String>,
    pub model: String,
    pub timeout_secs: u64,
    pub max_tokens: u32,
}

/// The mathematical value of a `RemoteConfig`.
pub struct RemoteConfigView {
    pub name: Seq<char>,
    pub base_url: Seq<char>,
    pub api_key: Option<Seq<char>>,
    pub model: Seq<char>,
    pub timeout_secs: u64,
    pub max_tokens: u32,
}

impl View for RemoteConfig {
    type V = RemoteConfigView;

    open spec fn view(&self) -> RemoteConfigView {
        RemoteConfigView {
            name: self.name@,
            base_url: self.base_url@,
            api_key: opt_text(self.api_key),
            model: self.model@,
            timeout_secs: self.timeout_secs,
            max_tokens: self.max_tokens,
        }
    }
}

impl RemoteConfig {
    /// A copy of this value.
    pub fn duplicate(&self) -> (r: RemoteConfig)
        ensures
            r@ == self@,
    {
        RemoteConfig {
            name: self.name.clone(),
            base_url: self.base_url.clone(),
            api_key: copy_opt_text(&self.api_key),
            model: self.model.clone(),
            timeout_secs: self.timeout_secs,
            max_tokens: self.max_tokens,
        }
    }
}

impl Default for RemoteConfig {
    fn default() -> (r: Self)
        ensures
            r@ == (RemoteConfigView {
                name: "default"@,
                base_url: "https://api.openai.com/v1"@,
                api_key: None,
                model: "gpt-4o"@,
                timeout_secs: 30,
                max_tokens: 2048,
            }),
    {
        RemoteConfig {
            name: "default".to_owned(),
            base_url: "https://api.openai.com/v1".to_owned(),
            api_key: None,
            model: "gpt-4o".to_owned(),
            timeout_secs: 30,
            max_tokens: 2048,
        }
    }
}

#[verifier::external_type_specification]
#[verifier::external_body]
pub struct ExHttpClient(reqwest::Client);

/// The total request timeout, in seconds, that an HTTP client was built with.
pub uninterp spec fn client_timeout_secs(c: reqwest::Client) -> u64;

/// `reqwest::Client::builder().timeout(Duration::from_secs(timeout_secs)).build()`, with the
/// error's text on failure. `ClientBuilder::timeout` sets the timeout of every request the
/// built client sends, so a client that comes back has that timeout. Whether the build
/// succeeds depends on the machine (its TLS set-up), so that is not stated.
#[verifier::external_body]
fn build_http_client(timeout_secs: u64) -> (r: Result<reqwest::Client, String>)
    ensures
        r matches Ok(c) ==> client_timeout_secs(c) == timeout_secs,
{
    match reqwest::Client::builder().timeout(std::time::Duration::from_secs(timeout_secs)).build() {
        Ok(c) => Ok(c),
        Err(e) => Err(e.to_string()),
    }
}

/// A client of an OpenAI-compatible endpoint.
pub struct OpenAICompatClient {
    pub config: RemoteConfig,
    pub client: reqwest::Client,
}

/// The mathematical value of an `OpenAICompatClient`: its settings and the timeout its HTTP
/// client was built with.
pub struct ClientView {
    pub config: RemoteConfigView,
    pub timeout_secs: u64,
}

impl View for OpenAICompatClient {
    type V = ClientView;

    open spec fn view(&self) -> ClientView {
        ClientView { config: self.config@, timeout_secs: client_timeout_secs(self.client) }
    }
}

/// The client made from `c`: these settings, with an HTTP client timing out after
/// `c.timeout_secs`.
pub open spec fn client_for(c: RemoteConfigView) -> ClientView {
    ClientView { config: c, timeout_secs: c.timeout_secs }
}

impl OpenAICompatClient {
    /// A client with these settings, its requests timing out after `timeout_secs`. When the
    /// HTTP client cannot be made, the error reads "HTTP 客户端初始化失败: " and the cause.
    pub fn new(config: RemoteConfig) -> (r: Result<OpenAICompatClient, String>)
        ensures
            match r {
                Ok(c) => c@ == client_for(config@),
                Err(e) => exists|cause: Seq<char>| e@ == "HTTP 客户端初始化失败: "@ + cause,
            },
    {
        match build_http_client(config.timeout_secs) {
            Ok(client) => Ok(OpenAICompatClient { config, client }),
            Err(cause) => {
                proof {
                    reveal_strlit("");
                }
                let e = concat3("HTTP 客户端初始化失败: ", cause.as_str(), "");
                assert(e@ == "HTTP 客户端初始化失败: "@ + cause@);
                Err(e)
            },
        }
    }

    /// The kind of this backend: remote, under its configured name.
    pub fn backend_type(&self) -> (r: BackendType)
        ensures
            r matches BackendType::Remote(n) && n@ == self.config.name@,
    {
        BackendType::Remote(self.config.name.clone())
    }
}

/// `s` without its trailing `c` characters.
pub open spec fn strip_trailing(s: Seq<char>, c: char) -> Seq<char>
    decreases s.len(),
{
    if s.len() > 0 && s.last() == c {
        strip_trailing(s.drop_last(), c)
    } else {
        s
    }
}

/// `base` without its trailing slashes, followed by `path`.
pub open spec fn endpoint(base: Seq<char>, path: Seq<char>) -> Seq<char> {
    strip_trailing(base, '/') + path
}

/// `base` without its trailing slashes, followed by `path`.
pub fn endpoint_url(base: &str, path: &str) -> (r: String)
    ensures
        r@ == endpoint(base@, path@),
{
    let chars = crate::text::chars_of(base);
    let mut n = chars.len();
    assert(chars@.take(n as int) == chars@);
    while n > 0 && chars[n - 1] == '/'
        invariant
            n <= chars.len(),
            strip_trailing(chars@.take(n as int), '/') == strip_trailing(base@, '/'),
            chars@ == base@,
        decreases n,
    {
        assert(chars@.take(n as int - 1) == chars@.take(n as int).drop_last());
        n = n - 1;
    }
    assert(chars@.take(chars.len() as int) == chars@);
    let kept = crate::text::copy_range(&chars, 0, n);
    let mut v: Vec<char> = kept;
    crate::text::append_str(&mut v, path);
    crate::text::string_from_chars(&v)
}

/// The address of the chat completions endpoint.
pub fn chat_url(base: &str) -> (r: String)
    ensures
        r@ == endpoint(base@, "/chat/completions"@),
{
    endpoint_url(base, "/chat/completions")
}

/// The address of the model list, used to check that the endpoint answers.
pub fn models_url(base: &str) -> (r: String)
    ensures
        r@ == endpoint(base@, "/models"@),
{
    endpoint_url(base, "/models")
}

/// The deep-thinking switch sent to the endpoint: only an explicit "off" is passed on.
pub fn thinking_flag(thinking: Option<bool>) -> (r: Option<bool>)
    ensures
        r == (if thinking == Some(false) { Some(false) } else { None::<bool> }),
{
    match thinking {
        Some(false) => Some(false),
        _ => None,
    }
}

/// The token limit of a chat request: the request's own, else the backend's.
pub fn chat_max_tokens(requested: Option<u32>, configured: u32) -> (r: Option<u32>)
    ensures
        r == Some(match requested { Some(m) => m, None => configured }),
{
    match requested {
        Some(m) => Some(m),
        None => Some(configured),
    }
}

/// The token limit and temperature (the bits of an `f32`) of a vision request: the request's
/// own, else the backend's limit and 0.3.
pub fn vision_parameters(max_tokens: Option<u32>, temperature_bits: Option<u32>, configured: u32) -> (r: (u32, u32))
    ensures
        r.0 == match max_tokens { Some(m) => m, None => configured },
        r.1 == match temperature_bits { Some(t) => t, None => TEMPERATURE_0_3 },
{
    let m = match max_tokens {
        Some(m) => m,
        None => configured,
    };
    let t = match temperature_bits {
        Some(t) => t,
        None => TEMPERATURE_0_3,
    };
    (m, t)
}

/// The value of the authorization header: "Bearer " and the key, when a non-empty key is
/// configured.
pub fn authorization(api_key: &Option<String>) -> (r: Option<String>)
    ensures
        match api_key {
            Some(k) => if k@.len() > 0 {
                r is Some && r->0@ == "Bearer "@ + k@
            } else {
                r is None
            },
            None => r is None,
        },
{
    match api_key {
        Some(k) => {
            proof {
                reveal_strlit("");
            }
            if crate::text::chars_of(k.as_str()).len() > 0 {
                Some(concat3("Bearer ", k.as_str(), ""))
            } else {
                None
            }
        },
        None => None,
    }
}

/// The answer of a completion: the first choice's content, the model that answered and its
/// token accounting; `empty_message` when the endpoint returned no choice.
pub fn completion_response(first_content: Option<String>, model: String, usage: Option<TokenUsage>, empty_message: &str) -> (r: Result<ChatResponse, String>)
    ensures
        match first_content {
            Some(c) => r matches Ok(resp) && resp.content@ == c@ && resp.model@ == model@ && resp.usage == usage,
            None => r matches Err(e) && e@ == empty_message@,
        },
{
    match first_content {
        Some(content) => Ok(ChatResponse { content, model, usage }),
        None => Err(empty_message.to_owned()),
    }
}

/// The error of a vision request that failed twice to reach the endpoint.
pub fn vision_transport_failure(last_error: Option<String>) -> (r: String)
    ensures
        r@ == "Vision request failed: "@ + match last_error {
            Some(e) => e@,
            None => "unknown transport error"@,
        },
{
    proof {
        reveal_strlit("");
    }
    match last_error {
        Some(e) => concat3("Vision request failed: ", e.as_str(), ""),
        None => concat3("Vision request failed: ", "unknown transport error", ""),
    }
}

/// How many times a vision request is sent before giving up on the transport.
pub const VISION_ATTEMPTS: u32 = 2;

} // verus!
