//! The shape of the configuration file, with its defaults.
use vstd::prelude::*;
use crate::foreign::home_dir;
use crate::text::{append_str, copy_opt_text, copy_texts, ends_with, opt_text, string_from_chars, texts};

verus! {

/// The application configuration.
#[derive(Debug, Clone)]
pub struct AppConfig {
    pub general: GeneralConfig,
    pub hotkey: HotkeyConfig,
    pub popup: PopupConfig,
    pub model: ModelConfig,
    pub privacy: PrivacyConfig,
}

/// The mathematical value of a `AppConfig`.
pub struct AppConfigView {
    pub general: GeneralConfigView,
    pub hotkey: HotkeyConfigView,
    pub popup: PopupConfigView,
    pub model: ModelConfigView,
    pub privacy: PrivacyConfigView,
}

impl View for AppConfig {
    type V = AppConfigView;

    open spec fn view(&self) -> AppConfigView {
        AppConfigView {
            general: self.general@,
            hotkey: self.hotkey@,
            popup: self.popup@,
            model: self.model@,
            privacy: self.privacy@,
        }
    }
}

impl AppConfig {
    /// A copy of this value.
    pub fn duplicate(&self) -> (r: AppConfig)
        ensures
            r@ == self@,
    {
        let r = AppConfig {
            general: self.general.duplicate(),
            hotkey: self.hotkey.duplicate(),
            popup: self.popup.duplicate(),
            model: self.model.duplicate(),
            privacy: self.privacy.duplicate(),
        };
        r
    }
}

/// General behaviour.
#[derive(Debug, Clone)]
pub struct GeneralConfig {
    /// "hotkey", "auto_popup" or "both".
    pub trigger_mode: String,
    /// "rules_only", "remote_api" or "local_model".
    pub capability_mode: String,
    pub locale: String,
    pub auto_start: bool,
    pub history_limit: u32,
    pub show_detail_panel_by_default: bool,
    pub show_search_toolbar_buttons: bool,
    pub clear_inputs_on_panel_open: bool,
    pub show_item_meta: bool,
}

/// The mathematical value of a `GeneralConfig`.
pub struct GeneralConfigView {
    pub trigger_mode: Seq<char>,
    pub capability_mode: Seq<char>,
    pub locale: Seq<char>,
    pub auto_start: bool,
    pub history_limit: u32,
    pub show_detail_panel_by_default: bool,
    pub show_search_toolbar_buttons: bool,
    pub clear_inputs_on_panel_open: bool,
    pub show_item_meta: bool,
}

impl View for GeneralConfig {
    type V = GeneralConfigView;

    open spec fn view(&self) -> GeneralConfigView {
        GeneralConfigView {
            trigger_mode: self.trigger_mode@,
            capability_mode: self.capability_mode@,
            locale: self.locale@,
            auto_start: self.auto_start,
            history_limit: self.history_limit,
            show_detail_panel_by_default: self.show_detail_panel_by_default,
            show_search_toolbar_buttons: self.show_search_toolbar_buttons,
            clear_inputs_on_panel_open: self.clear_inputs_on_panel_open,
            show_item_meta: self.show_item_meta,
        }
    }
}

impl GeneralConfig {
    /// A copy of this value.
    pub fn duplicate(&self) -> (r: GeneralConfig)
        ensures
            r@ == self@,
    {
        let r = GeneralConfig {
            trigger_mode: self.trigger_mode.clone(),
            capability_mode: self.capability_mode.clone(),
            locale: self.locale.clone(),
            auto_start: self.auto_start,
            history_limit: self.history_limit,
            show_detail_panel_by_default: self.show_detail_panel_by_default,
            show_search_toolbar_buttons: self.show_search_toolbar_buttons,
            clear_inputs_on_panel_open: self.clear_inputs_on_panel_open,
            show_item_meta: self.show_item_meta,
        };
        r
    }
}

/// The popup window.
#[derive(Debug, Clone)]
pub struct PopupConfig {
    /// "cursor", "top_right" or "bottom_right".
    pub position: String,
    /// Time before the popup closes by itself; 0: never.
    pub auto_dismiss_ms: u32,
    pub max_width: u32,
}

/// The mathematical value of a `PopupConfig`.
pub struct PopupConfigView {
    pub position: Seq<char>,
    pub auto_dismiss_ms: u32,
    pub max_width: u32,
}

impl View for PopupConfig {
    type V = PopupConfigView;

    open spec fn view(&self) -> PopupConfigView {
        PopupConfigView {
            position: self.position@,
            auto_dismiss_ms: self.auto_dismiss_ms,
            max_width: self.max_width,
        }
    }
}

impl PopupConfig {
    /// A copy of this value.
    pub fn duplicate(&self) -> (r: PopupConfig)
        ensures
            r@ == self@,
    {
        let r = PopupConfig {
            position: self.position.clone(),
            auto_dismiss_ms: self.auto_dismiss_ms,
            max_width: self.max_width,
        };
        r
    }
}

/// Global shortcuts.
#[derive(Debug, Clone)]
pub struct HotkeyConfig {
    pub open_panel: String,
    pub quick_translate: String,
    pub quick_summarize: String,
    /// Shortcuts bound to actions.
    pub quick_actions: Vec<QuickActionBinding>,
}

/// The mathematical value of a `HotkeyConfig`.
pub struct HotkeyConfigView {
    pub open_panel: Seq<char>,
    pub quick_translate: Seq<char>,
    pub quick_summarize: Seq<char>,
    pub quick_actions: Seq<QuickActionBindingView>,
}

impl View for HotkeyConfig {
    type V = HotkeyConfigView;

    open spec fn view(&self) -> HotkeyConfigView {
        HotkeyConfigView {
            open_panel: self.open_panel@,
            quick_translate: self.quick_translate@,
            quick_summarize: self.quick_summarize@,
            quick_actions: Seq::new(self.quick_actions@.len(), |i: int| self.quick_actions@[i]@),
        }
    }
}

impl HotkeyConfig {
    /// A copy of this value.
    pub fn duplicate(&self) -> (r: HotkeyConfig)
        ensures
            r@ == self@,
    {
        let r = HotkeyConfig {
            open_panel: self.open_panel.clone(),
            quick_translate: self.quick_translate.clone(),
            quick_summarize: self.quick_summarize.clone(),
            quick_actions: copy_quick_action_binding_list(&self.quick_actions),
        };
        assert(r@.quick_actions =~= self@.quick_actions);
        r
    }
}

/// A copy of a list of `QuickActionBinding` values.
pub fn copy_quick_action_binding_list(v: &Vec<QuickActionBinding>) -> (r: Vec<QuickActionBinding>)
    ensures
        r@.len() == v@.len(),
        forall|i: int| 0 <= i < v@.len() ==> (#[trigger] r@[i])@ == v@[i]@,
{
    let mut r: Vec<QuickActionBinding> = Vec::new();
    let mut i: usize = 0;
    while i < v.len()
        invariant
            i <= v@.len(),
            r@.len() == i,
            forall|k: int| 0 <= k < i ==> (#[trigger] r@[k])@ == v@[k]@,
        decreases v@.len() - i,
    {
        r.push(v[i].duplicate());
        i = i + 1;
    }
    r
}

/// A shortcut bound to an action.
#[derive(Debug, Clone)]
pub struct QuickActionBinding {
    pub label: String,
    pub action_id: String,
    /// Such as "CommandOrControl+Shift+T".
    pub shortcut: String,
    pub enabled: bool,
}

/// The mathematical value of a `QuickActionBinding`.
pub struct QuickActionBindingView {
    pub label: Seq<char>,
    pub action_id: Seq<char>,
    pub shortcut: Seq<char>,
    pub enabled: bool,
}

impl View for QuickActionBinding {
    type V = QuickActionBindingView;

    open spec fn view(&self) -> QuickActionBindingView {
        QuickActionBindingView {
            label: self.label@,
            action_id: self.action_id@,
            shortcut: self.shortcut@,
            enabled: self.enabled,
        }
    }
}

impl QuickActionBinding {
    /// A copy of this value.
    pub fn duplicate(&self) -> (r: QuickActionBinding)
        ensures
            r@ == self@,
    {
        let r = QuickActionBinding {
            label: self.label.clone(),
            action_id: self.action_id.clone(),
            shortcut: self.shortcut.clone(),
            enabled: self.enabled,
        };
        r
    }
}

/// Inference settings.
#[derive(Debug, Clone)]
pub struct ModelConfig {
    /// Name of the backend used by default; "rules" for none.
    pub default_backend: String,
    pub remote_backends: Vec<RemoteBackendConfig>,
    pub local: LocalModelConfig,
}

/// The mathematical value of a `ModelConfig`.
pub struct ModelConfigView {
    pub default_backend: Seq<char>,
    pub remote_backends: Seq<RemoteBackendConfigView>,
    pub local: LocalModelConfigView,
}

impl View for ModelConfig {
    type V = ModelConfigView;

    open spec fn view(&self) -> ModelConfigView {
        ModelConfigView {
            default_backend: self.default_backend@,
            remote_backends: Seq::new(self.remote_backends@.len(), |i: int| self.remote_backends@[i]@),
            local: self.local@,
        }
    }
}

impl ModelConfig {
    /// A copy of this value.
    pub fn duplicate(&self) -> (r: ModelConfig)
        ensures
            r@ == self@,
    {
        let r = ModelConfig {
            default_backend: self.default_backend.clone(),
            remote_backends: copy_remote_backend_config_list(&self.remote_backends),
            local: self.local.duplicate(),
        };
        assert(r@.remote_backends =~= self@.remote_backends);
        r
    }
}

/// A copy of a list of `RemoteBackendConfig` values.
pub fn copy_remote_backend_config_list(v: &Vec<RemoteBackendConfig>) -> (r: Vec<RemoteBackendConfig>)
    ensures
        r@.len() == v@.len(),
        forall|i: int| 0 <= i < v@.len() ==> (#[trigger] r@[i])@ == v@[i]@,
{
    let mut r: Vec<RemoteBackendConfig> = Vec::new();
    let mut i: usize = 0;
    while i < v.len()
        invariant
            i <= v@.len(),
            r@.len() == i,
            forall|k: int| 0 <= k < i ==> (#[trigger] r@[k])@ == v@[k]@,
        decreases v@.len() - i,
    {
        r.push(v[i].duplicate());
        i = i + 1;
    }
    r
}

/// The local inference engine.
#[derive(Debug, Clone)]
pub struct LocalModelConfig {
    /// "llama_cpp", "mlx" or "none".
    pub engine: String,
    pub server_url: String,
    pub default_model: String,
    pub model_dir: String,
    /// Whether to fall back to the local engine when a remote call fails.
    pub fallback_to_local: bool,
}

/// The mathematical value of a `LocalModelConfig`.
pub struct LocalModelConfigView {
    pub engine: Seq<char>,
    pub server_url: Seq<char>,
    pub default_model: Seq<char>,
    pub model_dir: Seq<char>,
    pub fallback_to_local: bool,
}

impl View for LocalModelConfig {
    type V = LocalModelConfigView;

    open spec fn view(&self) -> LocalModelConfigView {
        LocalModelConfigView {
            engine: self.engine@,
            server_url: self.server_url@,
            default_model: self.default_model@,
            model_dir: self.model_dir@,
            fallback_to_local: self.fallback_to_local,
        }
    }
}

impl LocalModelConfig {
    /// A copy of this value.
    pub fn duplicate(&self) -> (r: LocalModelConfig)
        ensures
            r@ == self@,
    {
        let r = LocalModelConfig {
            engine: self.engine.clone(),
            server_url: self.server_url.clone(),
            default_model: self.default_model.clone(),
            model_dir: self.model_dir.clone(),
            fallback_to_local: self.fallback_to_local,
        };
        r
    }
}

/// A remote OpenAI-compatible backend.
#[derive(Debug, Clone)]
pub struct RemoteBackendConfig {
    pub name: String,
    pub base_url: String,
    /// Kept here only when the system keychain could not store it.
    pub api_key: Option<String>,
    pub model: String,
    /// Seconds.
    pub timeout: u64,
    pub max_tokens: u32,
}

/// The mathematical value of a `RemoteBackendConfig`.
pub struct RemoteBackendConfigView {
    pub name: Seq<char>,
    pub base_url: Seq<char>,
    pub api_key: Option<Seq<char>>,
    pub model: Seq<char>,
    pub timeout: u64,
    pub max_tokens: u32,
}

impl View for RemoteBackendConfig {
    type V = RemoteBackendConfigView;

    open spec fn view(&self) -> RemoteBackendConfigView {
        RemoteBackendConfigView {
            name: self.name@,
            base_url: self.base_url@,
            api_key: opt_text(self.api_key),
            model: self.model@,
            timeout: self.timeout,
            max_tokens: self.max_tokens,
        }
    }
}

impl RemoteBackendConfig {
    /// A copy of this value.
    pub fn duplicate(&self) -> (r: RemoteBackendConfig)
        ensures
            r@ == self@,
    {
        let r = RemoteBackendConfig {
            name: self.name.clone(),
            base_url: self.base_url.clone(),
            api_key: copy_opt_text(&self.api_key),
            model: self.model.clone(),
            timeout: self.timeout,
            max_tokens: self.max_tokens,
        };
        r
    }
}

/// Privacy settings.
#[derive(Debug, Clone)]
pub struct PrivacyConfig {
    /// Applications whose clipboard content is not recorded.
    pub excluded_apps: Vec<String>,
    /// Whether sensitive content may be sent to remote backends.
    pub log_sensitive: bool,
}

/// The mathematical value of a `PrivacyConfig`.
pub struct PrivacyConfigView {
    pub excluded_apps: Seq<Seq<char>>,
    pub log_sensitive: bool,
}

impl View for PrivacyConfig {
    type V = PrivacyConfigView;

    open spec fn view(&self) -> PrivacyConfigView {
        PrivacyConfigView {
            excluded_apps: texts(self.excluded_apps@),
            log_sensitive: self.log_sensitive,
        }
    }
}

impl PrivacyConfig {
    /// A copy of this value.
    pub fn duplicate(&self) -> (r: PrivacyConfig)
        ensures
            r@ == self@,
    {
        let r = PrivacyConfig {
            excluded_apps: copy_texts(&self.excluded_apps),
            log_sensitive: self.log_sensitive,
        };
        r
    }
}


/// `a` joined with the relative path `b`, as `Path::join` does: a separator is added unless `a`
/// is empty or already ends with one.
pub open spec fn path_join(a: Seq<char>, b: Seq<char>) -> Seq<char> {
    if a.len() == 0 {
        b
    } else if a.last() == '/' {
        a + b
    } else {
        a + "/"@ + b
    }
}

/// Joins a relative path onto a path.
pub fn join_path(a: &str, b: &str) -> (r: String)
    ensures
        r@ == path_join(a@, b@),
{
    let av = crate::text::chars_of(a);
    let mut v: Vec<char> = Vec::new();
    append_str(&mut v, a);
    if av.len() > 0 && av[av.len() - 1] != '/' {
        append_str(&mut v, "/");
    }
    append_str(&mut v, b);
    string_from_chars(&v)
}

/// Where models are kept: `.clipbrain/models` under the home directory, or
/// "~/.clipbrain/models" when the home directory is unknown.
pub open spec fn model_dir_under(home: Option<Seq<char>>) -> Seq<char> {
    match home {
        Some(h) => path_join(path_join(h, ".clipbrain"@), "models"@),
        None => "~/.clipbrain/models"@,
    }
}

/// The models directory for a home directory.
pub fn model_dir_for(home: Option<String>) -> (r: String)
    ensures
        r@ == model_dir_under(opt_text(home)),
{
    match home {
        Some(h) => {
            let base = join_path(h.as_str(), ".clipbrain");
            join_path(base.as_str(), "models")
        },
        None => "~/.clipbrain/models".to_owned(),
    }
}

/// The default models directory, under the user's home directory.
pub fn default_model_dir() -> (r: String)
    ensures
        exists|h: Option<Seq<char>>| r@ == model_dir_under(h),
{
    let home = home_dir();
    let r = model_dir_for(home);
    assert(r@ == model_dir_under(opt_text(home)));
    r
}

/// The default history size.
pub fn default_history_limit() -> (r: u32)
    ensures
        r == 500,
{
    500
}

/// `true`, the default of several switches.
pub fn default_true() -> (r: bool)
    ensures
        r,
{
    true
}

/// The default local engine: none.
pub fn default_local_engine() -> (r: String)
    ensures
        r@ == "none"@,
{
    "none".to_owned()
}

/// The default address of the local inference server.
pub fn default_local_url() -> (r: String)
    ensures
        r@ == "http://127.0.0.1:8080"@,
{
    "http://127.0.0.1:8080".to_owned()
}

/// The local-engine settings by default, with a models directory.
pub open spec fn default_local(l: LocalModelConfigView) -> bool {
    &&& l.engine == "none"@
    &&& l.server_url == "http://127.0.0.1:8080"@
    &&& l.default_model == Seq::<char>::empty()
    &&& exists|h: Option<Seq<char>>| l.model_dir == model_dir_under(h)
    &&& !l.fallback_to_local
}

impl Default for LocalModelConfig {
    fn default() -> (r: Self)
        ensures
            default_local(r@),
    {
        LocalModelConfig {
            engine: default_local_engine(),
            server_url: default_local_url(),
            default_model: String::new(),
            model_dir: default_model_dir(),
            fallback_to_local: false,
        }
    }
}

/// The configuration by default.
pub open spec fn default_config(c: AppConfigView) -> bool {
    &&& c.general.trigger_mode == "hotkey"@
    &&& c.general.capability_mode == "rules_only"@
    &&& c.general.locale == "zh-CN"@
    &&& !c.general.auto_start
    &&& c.general.history_limit == 500
    &&& c.general.show_detail_panel_by_default
    &&& !c.general.show_search_toolbar_buttons
    &&& !c.general.clear_inputs_on_panel_open
    &&& c.general.show_item_meta
    &&& c.popup.position == "top_right"@
    &&& c.popup.auto_dismiss_ms == 3000
    &&& c.popup.max_width == 400
    &&& c.hotkey.open_panel == "Alt+CommandOrControl+C"@
    &&& c.hotkey.quick_translate == "CommandOrControl+Shift+T"@
    &&& c.hotkey.quick_summarize == "CommandOrControl+Shift+S"@
    &&& c.hotkey.quick_actions.len() == 0
    &&& c.model.default_backend == "rules"@
    &&& c.model.remote_backends.len() == 0
    &&& default_local(c.model.local)
    &&& c.privacy.excluded_apps == seq!["1Password"@, "Bitwarden"@, "KeePassXC"@]
    &&& !c.privacy.log_sensitive
}

impl Default for AppConfig {
    fn default() -> (r: Self)
        ensures
            default_config(r@),
    {
        let mut excluded: Vec<String> = Vec::new();
        excluded.push("1Password".to_owned());
        excluded.push("Bitwarden".to_owned());
        excluded.push("KeePassXC".to_owned());
        let r = AppConfig {
            general: GeneralConfig {
                trigger_mode: "hotkey".to_owned(),
                capability_mode: "rules_only".to_owned(),
                locale: "zh-CN".to_owned(),
                auto_start: false,
                history_limit: 500,
                show_detail_panel_by_default: true,
                show_search_toolbar_buttons: false,
                clear_inputs_on_panel_open: false,
                show_item_meta: true,
            },
            popup: PopupConfig {
                position: "top_right".to_owned(),
                auto_dismiss_ms: 3000,
                max_width: 400,
            },
            hotkey: HotkeyConfig {
                open_panel: "Alt+CommandOrControl+C".to_owned(),
                quick_translate: "CommandOrControl+Shift+T".to_owned(),
                quick_summarize: "CommandOrControl+Shift+S".to_owned(),
                quick_actions: Vec::new(),
            },
            model: ModelConfig {
                default_backend: "rules".to_owned(),
                remote_backends: Vec::new(),
                local: LocalModelConfig::default(),
            },
            privacy: PrivacyConfig { excluded_apps: excluded, log_sensitive: false },
        };
        assert(r@.privacy.excluded_apps =~= seq!["1Password"@, "Bitwarden"@, "KeePassXC"@]);
        r
    }
}

} // verus!
