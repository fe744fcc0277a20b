//! The model configuration commands: saving, listing, deleting and choosing remote
//! backends, both in the registry and in the configuration. Keychain access, writing the
//! configuration file and testing connections is the caller's part.
use vstd::prelude::*;
use crate::config::manager::{ConfigManager, ConfigEdit, apply_edit, ConfigEditView};
use crate::config::schema::{AppConfig, RemoteBackendConfig, RemoteBackendConfigView};
use crate::model::router::InferenceRouter;
use crate::model::remote::openai_compat::{RemoteConfig, RemoteConfigView};
use crate::model::state::{configure_remote_backend, configured, remove_remote_backend, removed, set_default_backend};
use crate::text::{concat3, opt_text};

verus! {

/// A backend's settings as entered.
#[derive(Debug, Clone)]
pub struct ModelConfigInput {
    pub name: String,
    pub base_url: String,
    pub api_key: String,
    pub model: String,
    pub timeout_secs: Option<u64>,
    pub max_tokens: Option<u32>,
}

/// A stored backend's settings as listed.
#[derive(Debug, Clone)]
pub struct ModelConfigOutput {
    pub name: String,
    pub base_url: String,
    pub api_key: String,
    pub model: String,
    pub timeout_secs: u64,
    pub max_tokens: u32,
    pub is_active: bool,
}

/// The timeout of entered settings: 30 seconds unless given.
pub open spec fn input_timeout(i: ModelConfigInput) -> u64 {
    match i.timeout_secs { Some(t) => t, None => 30 }
}

/// The token limit of entered settings: 2048 unless given.
pub open spec fn input_max_tokens(i: ModelConfigInput) -> u32 {
    match i.max_tokens { Some(m) => m, None => 2048 }
}

/// The settings a backend is registered with: the entered ones, its key included.
pub fn remote_config_from_input(input: &ModelConfigInput) -> (r: RemoteConfig)
    ensures
        r@ == (RemoteConfigView {
            name: input.name@,
            base_url: input.base_url@,
            api_key: Some(input.api_key@),
            model: input.model@,
            timeout_secs: input_timeout(*input),
            max_tokens: input_max_tokens(*input),
        }),
{
    RemoteConfig {
        name: input.name.clone(),
        base_url: input.base_url.clone(),
        api_key: Some(input.api_key.clone()),
        model: input.model.clone(),
        timeout_secs: match input.timeout_secs { Some(t) => t, None => 30 },
        max_tokens: match input.max_tokens { Some(m) => m, None => 2048 },
    }
}

/// The settings stored in the configuration: the key only when the keychain did not take it.
pub fn backend_config_from_input(input: &ModelConfigInput, key_stored: bool) -> (r: RemoteBackendConfig)
    ensures
        r@ == (RemoteBackendConfigView {
            name: input.name@,
            base_url: input.base_url@,
            api_key: if key_stored { None } else { Some(input.api_key@) },
            model: input.model@,
            timeout: input_timeout(*input),
            max_tokens: input_max_tokens(*input),
        }),
{
    RemoteBackendConfig {
        name: input.name.clone(),
        base_url: input.base_url.clone(),
        api_key: if key_stored { None } else { Some(input.api_key.clone()) },
        model: input.model.clone(),
        timeout: match input.timeout_secs { Some(t) => t, None => 30 },
        max_tokens: match input.max_tokens { Some(m) => m, None => 2048 },
    }
}

/// Save entered backend settings: register the backend, then store its settings in the
/// configuration (the caller writes out the configuration returned). The message says
/// whether the key went to the keychain. Fails, changing nothing, when the backend cannot
/// be registered, that is when its HTTP client cannot be made.
pub fn save_model_config(router: &mut InferenceRouter, manager: &mut ConfigManager, input: &ModelConfigInput, key_stored: bool) -> (r: Result<(AppConfig, String), String>)
    ensures
        match r {
            Ok((cfg, message)) => {
                let b = RemoteBackendConfigView {
                    name: input.name@,
                    base_url: input.base_url@,
                    api_key: if key_stored { None } else { Some(input.api_key@) },
                    model: input.model@,
                    timeout: input_timeout(*input),
                    max_tokens: input_max_tokens(*input),
                };
                &&& final(router)@ == configured(old(router)@, RemoteConfigView {
                    name: input.name@,
                    base_url: input.base_url@,
                    api_key: Some(input.api_key@),
                    model: input.model@,
                    timeout_secs: input_timeout(*input),
                    max_tokens: input_max_tokens(*input),
                })
                &&& final(manager)@ == apply_edit(old(manager)@, ConfigEditView::SaveBackend(b))
                &&& cfg@ == final(manager)@
                &&& message@ == "后端 '"@ + input.name@ + if key_stored { "' 已配置（API Key 已安全存储）"@ } else { "' 已配置（API Key 仅在内存中）"@ }
            },
            Err(e) => final(router)@ == old(router)@ && final(manager)@ == old(manager)@
                && exists|cause: Seq<char>| e@ == "HTTP 客户端初始化失败: "@ + cause,
        },
{
    let remote = remote_config_from_input(input);
    match configure_remote_backend(router, remote) {
        Ok(()) => {},
        Err(e) => return Err(e),
    }
    let backend = backend_config_from_input(input, key_stored);
    let edit = ConfigEdit::SaveBackend(backend);
    let cfg = manager.apply(&edit);
    let message = if key_stored {
        concat3("后端 '", input.name.as_str(), "' 已配置（API Key 已安全存储）")
    } else {
        concat3("后端 '", input.name.as_str(), "' 已配置（API Key 仅在内存中）")
    };
    Ok((cfg, message))
}

/// The stored backends as listed: each with the keychain's key (`stored_keys[i]` for the
/// `i`-th) or else the stored key or else none, and whether it is the default.
pub fn list_model_configs(cfg: &AppConfig, stored_keys: &Vec<Option<String>>) -> (r: Vec<ModelConfigOutput>)
    requires
        stored_keys@.len() == cfg.model.remote_backends@.len(),
    ensures
        r@.len() == cfg@.model.remote_backends.len(),
        forall|i: int| 0 <= i < r@.len() ==> {
            let b = #[trigger] cfg@.model.remote_backends[i];
            &&& r@[i].name@ == b.name
            &&& r@[i].base_url@ == b.base_url
            &&& r@[i].api_key@ == match opt_text(stored_keys@[i]) {
                Some(k) => k,
                None => match b.api_key { Some(k) => k, None => Seq::empty() },
            }
            &&& r@[i].model@ == b.model
            &&& r@[i].timeout_secs == b.timeout
            &&& r@[i].max_tokens == b.max_tokens
            &&& r@[i].is_active == (b.name == cfg@.model.default_backend)
        },
{
    let mut out: Vec<ModelConfigOutput> = Vec::new();
    let n = cfg.model.remote_backends.len();
    let mut i: usize = 0;
    while i < n
        invariant
            n == cfg.model.remote_backends@.len(),
            n == stored_keys@.len(),
            i <= n,
            out@.len() == i,
            forall|k: int| 0 <= k < i ==> {
                let b = #[trigger] cfg@.model.remote_backends[k];
                &&& out@[k].name@ == b.name
                &&& out@[k].base_url@ == b.base_url
                &&& out@[k].api_key@ == match opt_text(stored_keys@[k]) {
                    Some(key) => key,
                    None => match b.api_key { Some(key) => key, None => Seq::empty() },
                }
                &&& out@[k].model@ == b.model
                &&& out@[k].timeout_secs == b.timeout
                &&& out@[k].max_tokens == b.max_tokens
                &&& out@[k].is_active == (b.name == cfg@.model.default_backend)
            },
        decreases n - i,
    {
        let b = &cfg.model.remote_backends[i];
        let api_key = match &stored_keys[i] {
            Some(k) => k.clone(),
            None => match &b.api_key {
                Some(k) => k.clone(),
                None => String::new(),
            },
        };
        out.push(ModelConfigOutput {
            name: b.name.clone(),
            base_url: b.base_url.clone(),
            api_key,
            model: b.model.clone(),
            timeout_secs: b.timeout,
            max_tokens: b.max_tokens,
            is_active: b.name == cfg.model.default_backend,
        });
        i = i + 1;
    }
    out
}

/// Delete a backend from the registry and from the configuration (which the caller writes
/// out), with the message "后端 '<name>' 已删除".
pub fn delete_model_config(router: &mut InferenceRouter, manager: &mut ConfigManager, name: String) -> (r: (AppConfig, String))
    ensures
        final(router)@ == removed(old(router)@, name@),
        final(manager)@ == apply_edit(old(manager)@, ConfigEditView::DeleteBackend(name@)),
        r.0@ == final(manager)@,
        r.1@ == "后端 '"@ + name@ + "' 已删除"@,
{
    let _ = remove_remote_backend(router, name.as_str());
    let message = concat3("后端 '", name.as_str(), "' 已删除");
    let cfg = manager.apply(&ConfigEdit::DeleteBackend(name));
    (cfg, message)
}

/// Make a stored backend the default, in the registry and in the configuration (which the
/// caller writes out), with the message "已切换到 '<name>'"; refused with
/// "配置 '<name>' 不存在" when no stored backend has that name.
pub fn set_active_model(router: &mut InferenceRouter, manager: &mut ConfigManager, name: String) -> (r: Result<(AppConfig, String), String>)
    ensures
        match r {
            Ok((cfg, message)) => {
                &&& exists|i: int| 0 <= i < old(manager)@.model.remote_backends.len()
                    && #[trigger] old(manager)@.model.remote_backends[i].name == name@
                &&& final(router)@.backends == old(router)@.backends
                &&& final(router)@.default_backend == name@
                &&& final(manager)@ == apply_edit(old(manager)@, ConfigEditView::SetDefaultBackend(name@))
                &&& cfg@ == final(manager)@
                &&& message@ == "已切换到 '"@ + name@ + "'"@
            },
            Err(e) => {
                &&& forall|i: int| 0 <= i < old(manager)@.model.remote_backends.len()
                    ==> #[trigger] old(manager)@.model.remote_backends[i].name != name@
                &&& e@ == "配置 '"@ + name@ + "' 不存在"@
                &&& final(router)@ == old(router)@
                &&& final(manager)@ == old(manager)@
            },
        },
{
    let current = manager.get();
    let ghost backends = current@.model.remote_backends;
    let n = current.model.remote_backends.len();
    let mut found = false;
    let mut i: usize = 0;
    while i < n
        invariant
            n == current.model.remote_backends@.len(),
            backends == current@.model.remote_backends,
            i <= n,
            found == (exists|j: int| 0 <= j < i && #[trigger] backends[j].name == name@),
        decreases n - i,
    {
        if current.model.remote_backends[i].name == name {
            assert(backends[i as int].name == name@);
            found = true;
        }
        i = i + 1;
    }
    if !found {
        return Err(concat3("配置 '", name.as_str(), "' 不存在"));
    }
    let _ = set_default_backend(router, name.as_str());
    let message = concat3("已切换到 '", name.as_str(), "'");
    let cfg = manager.apply(&ConfigEdit::SetDefaultBackend(name));
    Ok((cfg, message))
}

/// The outcome of a connection test: "后端 '<name>' 连接成功" when it answered, else the
/// error "后端 '<name>' 连接失败"; a test that could not run keeps its error.
pub fn connection_result(name: &str, tested: Result<bool, String>) -> (r: Result<String, String>)
    ensures
        match tested {
            Ok(true) => r matches Ok(m) && m@ == "后端 '"@ + name@ + "' 连接成功"@,
            Ok(false) => r matches Err(m) && m@ == "后端 '"@ + name@ + "' 连接失败"@,
            Err(e) => r matches Err(m) && m@ == e@,
        },
{
    match tested {
        Ok(true) => Ok(concat3("后端 '", name, "' 连接成功")),
        Ok(false) => Err(concat3("后端 '", name, "' 连接失败")),
        Err(e) => Err(e),
    }
}

/// The outcome of saving and then testing a backend.
pub fn setup_result(name: &str, tested: Result<bool, String>) -> (r: Result<String, String>)
    ensures
        match tested {
            Ok(true) => r matches Ok(m) && m@ == "后端 '"@ + name@ + "' 配置成功且连接正常 ✓"@,
            Ok(false) => r matches Err(m) && m@ == "后端 '"@ + name@ + "' 已保存但连接测试失败"@,
            Err(e) => r matches Err(m) && m@ == "后端 '"@ + name@ + "' 已保存但连接测试出错: "@ + e@,
        },
{
    match tested {
        Ok(true) => Ok(concat3("后端 '", name, "' 配置成功且连接正常 ✓")),
        Ok(false) => Err(concat3("后端 '", name, "' 已保存但连接测试失败")),
        Err(e) => {
            proof {
                reveal_strlit("");
            }
            let head = concat3("后端 '", name, "' 已保存但连接测试出错: ");
            Err(concat3(head.as_str(), e.as_str(), ""))
        },
    }
}

} // verus!
