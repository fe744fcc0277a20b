//! Operations on the backend registry that the application keeps: configuring and removing
//! remote backends, choosing the default, and finding the backend a request goes to.
use vstd::prelude::*;
use crate::model::router::{InferenceRouter, RouterView};
use crate::model::remote::openai_compat::{client_for, ClientView, OpenAICompatClient, RemoteConfig, RemoteConfigView};
use crate::config::schema::{AppConfig, AppConfigView, RemoteBackendConfig, RemoteBackendConfigView};
use crate::text::{concat3, copy_opt_text, opt_text};

verus! {

/// The registry after registering client `c`: it is registered under its name, and it
/// becomes the default while the rule engine is the default.
pub open spec fn registered(v: RouterView, c: ClientView) -> RouterView {
    RouterView {
        backends: v.backends.insert(c.config.name, c),
        default_backend: if v.default_backend == "rules"@ { c.config.name } else { v.default_backend },
    }
}

/// The registry after configuring `c`: the client made from these settings is registered.
pub open spec fn configured(v: RouterView, c: RemoteConfigView) -> RouterView {
    registered(v, client_for(c))
}

/// The registry after removing `name`: the rule engine becomes the default when `name` was.
pub open spec fn removed(v: RouterView, name: Seq<char>) -> RouterView {
    RouterView {
        backends: v.backends.remove(name),
        default_backend: if v.default_backend == name { "rules"@ } else { v.default_backend },
    }
}

/// Register a client that was built for a backend, adding it or replacing the one with the
/// same name; the first backend registered while the rule engine is the default becomes the
/// default. When the client could not be built, its error is returned and the registry is
/// left unchanged.
pub fn register_client(router: &mut InferenceRouter, built: Result<OpenAICompatClient, String>) -> (r: Result<(), String>)
    ensures
        match built {
            Ok(client) => r is Ok && final(router)@ == registered(old(router)@, client@),
            Err(e) => r == Err::<(), String>(e) && final(router)@ == old(router)@,
        },
{
    let client = match built {
        Ok(client) => client,
        Err(e) => return Err(e),
    };
    let ghost c = client@;
    let name = client.config.name.clone();
    router.register_backend(name.clone(), client);
    let rules = "rules".to_owned();
    let is_rules = {
        let current = router.default_backend_name().to_owned();
        current == rules
    };
    if is_rules {
        router.set_default_backend(name);
    }
    proof {
        assert(final(router)@.backends == registered(old(router)@, c).backends);
    }
    Ok(())
}

/// Configure a remote backend, adding it or replacing the one with the same name. The
/// first backend configured while the rule engine is the default becomes the default.
/// Fails, leaving the registry unchanged, when the HTTP client cannot be made; the error
/// then reads "HTTP 客户端初始化失败: " and the cause.
pub fn configure_remote_backend(router: &mut InferenceRouter, config: RemoteConfig) -> (r: Result<(), String>)
    ensures
        r is Ok ==> final(router)@ == configured(old(router)@, config@),
        r matches Err(e) ==> final(router)@ == old(router)@
            && exists|cause: Seq<char>| e@ == "HTTP 客户端初始化失败: "@ + cause,
{
    let built = OpenAICompatClient::new(config);
    register_client(router, built)
}

/// Remove a remote backend; when it was the default, the rule engine becomes the default.
pub fn remove_remote_backend(router: &mut InferenceRouter, name: &str) -> (r: Result<(), String>)
    ensures
        r is Ok,
        final(router)@ == removed(old(router)@, name@),
{
    router.remove_backend(name);
    let current = router.default_backend_name().to_owned();
    let target = name.to_owned();
    if current == target {
        router.set_default_backend("rules".to_owned());
    }
    Ok(())
}

/// The names of the registered backends, each once.
pub fn list_backends(router: &InferenceRouter) -> (r: Vec<String>)
    ensures
        forall|k: Seq<char>| router@.backends.dom().contains(k) <==> exists|i: int| 0 <= i < r@.len() && #[trigger] r@[i]@ == k,
        forall|i: int, j: int| 0 <= i < r@.len() && 0 <= j < r@.len() && i != j ==> #[trigger] r@[i]@ != #[trigger] r@[j]@,
{
    router.list_backends()
}

/// Make `name` the default backend.
pub fn set_default_backend(router: &mut InferenceRouter, name: &str) -> (r: Result<(), String>)
    ensures
        r is Ok,
        final(router)@.backends == old(router)@.backends,
        final(router)@.default_backend == name@,
{
    router.set_default_backend(name.to_owned());
    Ok(())
}

/// The name of the default backend.
pub fn default_backend_name(router: &InferenceRouter) -> (r: String)
    ensures
        r@ == router@.default_backend,
{
    router.default_backend_name().to_owned()
}

/// Whether a remote backend is registered.
pub fn has_remote_backend(router: &InferenceRouter) -> (r: bool)
    ensures
        r == !router@.backends.is_empty(),
{
    router.has_remote_backend()
}

/// The backend that requests without a named backend go to; "未配置推理后端" when none is
/// registered under the default name.
pub fn default_backend_for_request(router: &InferenceRouter) -> (r: Result<&OpenAICompatClient, String>)
    ensures
        match r {
            Ok(c) => router@.backends.dom().contains(router@.default_backend)
                && router@.backends[router@.default_backend] == c@,
            Err(e) => !router@.backends.dom().contains(router@.default_backend) && e@ == "未配置推理后端"@,
        },
{
    match router.get_default_backend() {
        Some(c) => Ok(c),
        None => Err("未配置推理后端".to_owned()),
    }
}

/// The backend named `name`, for a connection test; "后端 '<name>' 未找到" when there is
/// none.
pub fn backend_for_test<'a>(router: &'a InferenceRouter, name: &str) -> (r: Result<&'a OpenAICompatClient, String>)
    ensures
        match r {
            Ok(c) => router@.backends.dom().contains(name@) && router@.backends[name@] == c@,
            Err(e) => !router@.backends.dom().contains(name@) && e@ == "后端 '"@ + name@ + "' 未找到"@,
        },
{
    match router.get_backend(name) {
        Some(c) => Ok(c),
        None => Err(concat3("后端 '", name, "' 未找到")),
    }
}

/// The settings a stored backend is registered with: its stored fields, and the key kept in
/// the system keychain (`stored_key`) when there is one, else the key in the file.
pub open spec fn restored_config(b: RemoteBackendConfigView, stored_key: Option<Seq<char>>) -> RemoteConfigView {
    RemoteConfigView {
        name: b.name,
        base_url: b.base_url,
        api_key: match stored_key {
            Some(k) => Some(k),
            None => b.api_key,
        },
        model: b.model,
        timeout_secs: b.timeout,
        max_tokens: b.max_tokens,
    }
}

/// The settings a stored backend is registered with: its stored fields, and the key kept in
/// the system keychain (`stored_key`) when there is one, else the key in the file.
pub fn remote_config_for(backend: &RemoteBackendConfig, stored_key: &Option<String>) -> (r: RemoteConfig)
    ensures
        r@ == restored_config(backend@, opt_text(*stored_key)),
{
    let api_key = match stored_key {
        Some(k) => Some(k.clone()),
        None => copy_opt_text(&backend.api_key),
    };
    RemoteConfig {
        name: backend.name.clone(),
        base_url: backend.base_url.clone(),
        api_key,
        model: backend.model.clone(),
        timeout_secs: backend.timeout,
        max_tokens: backend.max_tokens,
    }
}

/// Whether `c`, registered under `name`, is what the `i`-th stored backend of `cfg` is
/// registered as, with the keychain's key `stored_keys[i]`.
pub open spec fn restored_as(cfg: AppConfigView, stored_keys: Seq<Option<String>>, i: int, name: Seq<char>, c: ClientView) -> bool {
    &&& 0 <= i < cfg.model.remote_backends.len()
    &&& cfg.model.remote_backends[i].name == name
    &&& c == client_for(restored_config(cfg.model.remote_backends[i], opt_text(stored_keys[i])))
}

/// Register every backend stored in the configuration (`stored_keys[i]` is the keychain
/// entry of the `i`-th), then restore the configured default unless it is the rule engine.
/// A backend whose HTTP client cannot be made is skipped; the others are registered in
/// order. No backend registered before goes away, and every registered backend is either
/// one registered before, unchanged, or a stored backend with its own settings and the
/// keychain's key when there is one.
pub fn restore_backends_from_config(router: &mut InferenceRouter, cfg: &AppConfig, stored_keys: &Vec<Option<String>>)
    requires
        stored_keys@.len() == cfg.model.remote_backends@.len(),
    ensures
        forall|k: Seq<char>| old(router)@.backends.dom().contains(k) ==> #[trigger] final(router)@.backends.dom().contains(k),
        forall|k: Seq<char>| #[trigger] final(router)@.backends.dom().contains(k) ==>
            (old(router)@.backends.dom().contains(k) && final(router)@.backends[k] == old(router)@.backends[k])
            || exists|i: int| #[trigger] restored_as(cfg@, stored_keys@, i, k, final(router)@.backends[k]),
        cfg@.model.default_backend != "rules"@ ==> final(router)@.default_backend == cfg@.model.default_backend,
        cfg@.model.default_backend == "rules"@ ==> final(router)@.default_backend == old(router)@.default_backend
            || exists|i: int| 0 <= i < cfg@.model.remote_backends.len() && cfg@.model.remote_backends[i].name == final(router)@.default_backend,
{
    let n = cfg.model.remote_backends.len();
    let mut i: usize = 0;
    while i < n
        invariant
            n == cfg.model.remote_backends@.len(),
            n == stored_keys@.len(),
            i <= n,
            forall|k: Seq<char>| old(router)@.backends.dom().contains(k) ==> #[trigger] router@.backends.dom().contains(k),
            forall|k: Seq<char>| #[trigger] router@.backends.dom().contains(k) ==>
                (old(router)@.backends.dom().contains(k) && router@.backends[k] == old(router)@.backends[k])
                || exists|j: int| #[trigger] restored_as(cfg@, stored_keys@, j, k, router@.backends[k]),
            router@.default_backend == old(router)@.default_backend
                || exists|j: int| 0 <= j < cfg@.model.remote_backends.len() && cfg@.model.remote_backends[j].name == router@.default_backend,
        decreases n - i,
    {
        let remote = remote_config_for(&cfg.model.remote_backends[i], &stored_keys[i]);
        let ghost c = remote@;
        let ghost before = router@;
        let r = configure_remote_backend(router, remote);
        proof {
            assert(cfg@.model.remote_backends[i as int].name == c.name);
            if r is Ok {
                assert forall|k: Seq<char>| #[trigger] router@.backends.dom().contains(k) implies
                    (old(router)@.backends.dom().contains(k) && router@.backends[k] == old(router)@.backends[k])
                    || exists|j: int| #[trigger] restored_as(cfg@, stored_keys@, j, k, router@.backends[k]) by {
                    if k == c.name {
                        assert(router@.backends[k] == client_for(c));
                        assert(restored_as(cfg@, stored_keys@, i as int, k, router@.backends[k]));
                    } else {
                        assert(before.backends.dom().contains(k));
                        assert(router@.backends[k] == before.backends[k]);
                        if !(old(router)@.backends.dom().contains(k) && before.backends[k] == old(router)@.backends[k]) {
                            let j = choose|j: int| #[trigger] restored_as(cfg@, stored_keys@, j, k, before.backends[k]);
                            assert(restored_as(cfg@, stored_keys@, j, k, router@.backends[k]));
                        }
                    }
                }
            }
        }
        i = i + 1;
    }
    let rules = "rules".to_owned();
    if !(cfg.model.default_backend == rules) {
        router.set_default_backend(cfg.model.default_backend.clone());
    }
}

/// Configuring a backend under a new name and removing it again restores the registry, as
/// long as the default was not that name (unless the default is the rule engine).
pub proof fn law_configure_then_remove(v: RouterView, c: RemoteConfigView)
    requires
        !v.backends.dom().contains(c.name),
        v.default_backend != c.name || v.default_backend == "rules"@,
    ensures
        removed(configured(v, c), c.name) == v,
{
    assert(v.backends.insert(c.name, client_for(c)).remove(c.name) =~= v.backends);
}

/// Once a backend is configured while the rule engine is the default, the default is a
/// registered backend.
pub proof fn law_default_is_registered(v: RouterView, c: RemoteConfigView)
    requires
        v.default_backend == "rules"@,
    ensures
        configured(v, c).backends.dom().contains(configured(v, c).default_backend),
{
}

/// A successful call on the registry: configuring a backend, or removing one by name.
pub enum BackendOp {
    Configure(RemoteConfigView),
    Remove(Seq<char>),
}

/// The registry after a sequence of successful calls (a failed configuration changes
/// nothing, so it is left out).
pub open spec fn after_ops(v: RouterView, ops: Seq<BackendOp>) -> RouterView
    decreases ops.len(),
{
    if ops.len() == 0 {
        v
    } else {
        let before = after_ops(v, ops.drop_last());
        match ops.last() {
            BackendOp::Configure(c) => configured(before, c),
            BackendOp::Remove(n) => removed(before, n),
        }
    }
}

/// Whether a call concerns the backend named `name`.
pub open spec fn concerns(op: BackendOp, name: Seq<char>) -> bool {
    match op {
        BackendOp::Configure(c) => c.name == name,
        BackendOp::Remove(n) => n == name,
    }
}

/// Whether a call configures the backend named `name`.
pub open spec fn configures(op: BackendOp, name: Seq<char>) -> bool {
    op matches BackendOp::Configure(c) && c.name == name
}

/// Whether the last call in `ops` that concerns `name` configures it.
pub open spec fn last_configures(ops: Seq<BackendOp>, name: Seq<char>) -> bool {
    exists|i: int|
        0 <= i < ops.len() && #[trigger] configures(ops[i], name)
            && forall|j: int| i < j < ops.len() ==> !concerns(#[trigger] ops[j], name)
}

/// After any sequence of successful calls, a name is registered exactly when the last call
/// concerning it configured it, or, when no call concerned it, it was registered before.
pub proof fn law_registered_after_calls(v: RouterView, ops: Seq<BackendOp>, name: Seq<char>)
    ensures
        after_ops(v, ops).backends.dom().contains(name) <==> (last_configures(ops, name) || (
        v.backends.dom().contains(name) && forall|j: int| 0 <= j < ops.len() ==> !concerns(#[trigger] ops[j], name))),
    decreases ops.len(),
{
    if ops.len() > 0 {
        let prev = ops.drop_last();
        let n = ops.len() - 1;
        law_registered_after_calls(v, prev, name);
        if concerns(ops[n], name) {
            match ops[n] {
                BackendOp::Configure(c) => {
                    assert(configures(ops[n], name));
                    assert(last_configures(ops, name));
                },
                BackendOp::Remove(r) => {
                    if last_configures(ops, name) {
                        let i = choose|i: int|
                            0 <= i < ops.len() && #[trigger] configures(ops[i], name)
                                && forall|j: int| i < j < ops.len() ==> !concerns(#[trigger] ops[j], name);
                        assert(i != n);
                        assert(!concerns(ops[n], name));
                    }
                },
            }
        } else {
            if last_configures(ops, name) {
                let i = choose|i: int|
                    0 <= i < ops.len() && #[trigger] configures(ops[i], name)
                        && forall|j: int| i < j < ops.len() ==> !concerns(#[trigger] ops[j], name);
                assert(i < n);
                assert(prev[i] == ops[i]);
                assert forall|j: int| i < j < prev.len() implies !concerns(#[trigger] prev[j], name) by {
                    assert(prev[j] == ops[j]);
                }
                assert(last_configures(prev, name));
            }
            if last_configures(prev, name) {
                let i = choose|i: int|
                    0 <= i < prev.len() && #[trigger] configures(prev[i], name)
                        && forall|j: int| i < j < prev.len() ==> !concerns(#[trigger] prev[j], name);
                assert(ops[i] == prev[i]);
                assert forall|j: int| i < j < ops.len() implies !concerns(#[trigger] ops[j], name) by {
                    if j < n {
                        assert(prev[j] == ops[j]);
                    }
                }
                assert(last_configures(ops, name));
            }
            if forall|j: int| 0 <= j < prev.len() ==> !concerns(#[trigger] prev[j], name) {
                assert forall|j: int| 0 <= j < ops.len() implies !concerns(#[trigger] ops[j], name) by {
                    if j < n {
                        assert(prev[j] == ops[j]);
                    }
                }
            }
            if forall|j: int| 0 <= j < ops.len() ==> !concerns(#[trigger] ops[j], name) {
                assert forall|j: int| 0 <= j < prev.len() implies !concerns(#[trigger] prev[j], name) by {
                    assert(prev[j] == ops[j]);
                }
            }
        }
    }
}

/// The names registered after `ops`, starting from `v`: those whose last call configured
/// them, and those no call concerned that were registered before.
pub open spec fn names_after_calls(v: RouterView, ops: Seq<BackendOp>) -> Set<Seq<char>> {
    Set::new(|n: Seq<char>| last_configures(ops, n)
        || (v.backends.dom().contains(n) && forall|j: int| 0 <= j < ops.len() ==> !concerns(#[trigger] ops[j], n)))
}

/// The names `list_backends` lists (each once) after any sequence of successful
/// `configure_remote_backend` and `remove_remote_backend` calls are exactly the names whose
/// last call configured them, together with the names registered at the start that no call
/// concerned; from start-up (no backend registered), just the former.
pub proof fn law_listed_backends_after_calls(v: RouterView, ops: Seq<BackendOp>)
    ensures
        after_ops(v, ops).backends.dom() == names_after_calls(v, ops),
        v.backends.dom().is_empty() ==> after_ops(v, ops).backends.dom() == Set::new(|n: Seq<char>| last_configures(ops, n)),
{
    assert forall|n: Seq<char>| after_ops(v, ops).backends.dom().contains(n) == names_after_calls(v, ops).contains(n) by {
        law_registered_after_calls(v, ops, n);
    }
    assert(after_ops(v, ops).backends.dom() =~= names_after_calls(v, ops));
    if v.backends.dom().is_empty() {
        assert forall|n: Seq<char>| after_ops(v, ops).backends.dom().contains(n) == last_configures(ops, n) by {
            law_registered_after_calls(v, ops, n);
            assert(!v.backends.dom().contains(n));
        }
        assert(after_ops(v, ops).backends.dom() =~= Set::new(|n: Seq<char>| last_configures(ops, n)));
    }
}

} // verus!
