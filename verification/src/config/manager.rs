//! The configuration held in memory: what is read back, what an update replaces, and
//! how each targeted edit changes it. Reading and writing the configuration file is the
//! caller's part; the outcome of a write is handed in where it decides what happens.
use vstd::prelude::*;
use crate::config::schema::{
    AppConfig, AppConfigView, ModelConfigView, HotkeyConfigView, RemoteBackendConfig,
    RemoteBackendConfigView, default_config,
};

verus! {

/// The index of the first backend at or after `k` whose name is `name`.
pub open spec fn first_named_from(s: Seq<RemoteBackendConfigView>, name: Seq<char>, k: int) -> Option<int>
    decreases s.len() - k,
{
    if k < 0 || k >= s.len() {
        None
    } else if s[k].name == name {
        Some(k)
    } else {
        first_named_from(s, name, k + 1)
    }
}

/// The index of the first backend whose name is `name`.
pub open spec fn first_named(s: Seq<RemoteBackendConfigView>, name: Seq<char>) -> Option<int> {
    first_named_from(s, name, 0)
}

/// `s` with the first backend named like `b` replaced by `b`, or `b` appended when there is
/// none.
pub open spec fn upsert_backend(s: Seq<RemoteBackendConfigView>, b: RemoteBackendConfigView) -> Seq<RemoteBackendConfigView> {
    match first_named(s, b.name) {
        Some(i) => s.update(i, b),
        None => s.push(b),
    }
}

/// `s` without the backends named `name`, the others in their order.
pub open spec fn without_named(s: Seq<RemoteBackendConfigView>, name: Seq<char>) -> Seq<RemoteBackendConfigView>
    decreases s.len(),
{
    if s.len() == 0 {
        s
    } else {
        let rest = without_named(s.drop_last(), name);
        if s.last().name == name {
            rest
        } else {
            rest.push(s.last())
        }
    }
}

/// A targeted change to the configuration.
pub enum ConfigEdit {
    /// Store a remote backend: replace the one with the same name or append it; the first
    /// stored backend becomes the default.
    SaveBackend(RemoteBackendConfig),
    /// Remove every backend with this name; when it was the default, the first remaining
    /// backend (or the rule engine) becomes the default.
    DeleteBackend(String),
    /// Make the named backend the default.
    SetDefaultBackend(String),
    /// Change the shortcut that opens the panel.
    SetOpenPanelHotkey(String),
}

/// The mathematical value of a `ConfigEdit`.
pub enum ConfigEditView {
    SaveBackend(RemoteBackendConfigView),
    DeleteBackend(Seq<char>),
    SetDefaultBackend(Seq<char>),
    SetOpenPanelHotkey(Seq<char>),
}

impl View for ConfigEdit {
    type V = ConfigEditView;

    open spec fn view(&self) -> ConfigEditView {
        match self {
            ConfigEdit::SaveBackend(b) => ConfigEditView::SaveBackend(b@),
            ConfigEdit::DeleteBackend(n) => ConfigEditView::DeleteBackend(n@),
            ConfigEdit::SetDefaultBackend(n) => ConfigEditView::SetDefaultBackend(n@),
            ConfigEdit::SetOpenPanelHotkey(s) => ConfigEditView::SetOpenPanelHotkey(s@),
        }
    }
}

/// The model settings with other backends and another default.
pub open spec fn with_backends(m: ModelConfigView, backends: Seq<RemoteBackendConfigView>, default: Seq<char>) -> ModelConfigView {
    ModelConfigView { default_backend: default, remote_backends: backends, local: m.local }
}

/// The configuration with other model settings.
pub open spec fn with_model(c: AppConfigView, m: ModelConfigView) -> AppConfigView {
    AppConfigView { general: c.general, hotkey: c.hotkey, popup: c.popup, model: m, privacy: c.privacy }
}

/// The configuration after `e`.
pub open spec fn apply_edit(c: AppConfigView, e: ConfigEditView) -> AppConfigView {
    match e {
        ConfigEditView::SaveBackend(b) => with_model(c, with_backends(
            c.model,
            upsert_backend(c.model.remote_backends, b),
            if c.model.default_backend == "rules"@ { b.name } else { c.model.default_backend },
        )),
        ConfigEditView::DeleteBackend(n) => {
            let rest = without_named(c.model.remote_backends, n);
            with_model(c, with_backends(
                c.model,
                rest,
                if c.model.default_backend == n {
                    if rest.len() > 0 { rest[0].name } else { "rules"@ }
                } else {
                    c.model.default_backend
                },
            ))
        },
        ConfigEditView::SetDefaultBackend(n) => with_model(c, with_backends(c.model, c.model.remote_backends, n)),
        ConfigEditView::SetOpenPanelHotkey(s) => AppConfigView {
            general: c.general,
            hotkey: HotkeyConfigView {
                open_panel: s,
                quick_translate: c.hotkey.quick_translate,
                quick_summarize: c.hotkey.quick_summarize,
                quick_actions: c.hotkey.quick_actions,
            },
            popup: c.popup,
            model: c.model,
            privacy: c.privacy,
        },
    }
}

/// The views of the backends in `v`.
pub open spec fn backend_views(v: Seq<RemoteBackendConfig>) -> Seq<RemoteBackendConfigView> {
    Seq::new(v.len(), |i: int| v[i]@)
}

/// The index of the first backend in `v` named `name`.
pub fn find_backend(v: &Vec<RemoteBackendConfig>, name: &String) -> (r: Option<usize>)
    ensures
        match r {
            Some(i) => i < v.len() && first_named(backend_views(v@), name@) == Some(i as int),
            None => first_named(backend_views(v@), name@) is None,
        },
{
    let ghost s = backend_views(v@);
    let n = v.len();
    let mut i: usize = 0;
    while i < n
        invariant
            n == v.len(),
            i <= n,
            s == backend_views(v@),
            first_named(s, name@) == first_named_from(s, name@, i as int),
        decreases n - i,
    {
        if v[i].name == *name {
            assert(s[i as int].name == name@);
            return Some(i);
        }
        assert(s[i as int].name != name@);
        i = i + 1;
    }
    None
}

/// `v` without the backends named `name`.
pub fn remove_named(v: &Vec<RemoteBackendConfig>, name: &String) -> (r: Vec<RemoteBackendConfig>)
    ensures
        backend_views(r@) == without_named(backend_views(v@), name@),
{
    let ghost s = backend_views(v@);
    let mut out: Vec<RemoteBackendConfig> = Vec::new();
    let n = v.len();
    let mut i: usize = 0;
    while i < n
        invariant
            n == v.len(),
            i <= n,
            s == backend_views(v@),
            backend_views(out@) == without_named(s.take(i as int), name@),
        decreases n - i,
    {
        assert(s.take(i as int + 1).drop_last() == s.take(i as int));
        let keep = !(v[i].name == *name);
        if keep {
            let b = v[i].duplicate();
            out.push(b);
            assert(backend_views(out@) == without_named(s.take(i as int), name@).push(s[i as int]));
        }
        i = i + 1;
    }
    assert(s.take(n as int) == s);
    out
}

/// The configuration held in memory.
pub struct ConfigManager {
    config: AppConfig,
}

impl View for ConfigManager {
    type V = AppConfigView;

    closed spec fn view(&self) -> AppConfigView {
        self.config@
    }
}

impl ConfigManager {
    /// A manager holding the configuration read at start-up, or the default configuration
    /// when none could be read.
    pub fn new(loaded: Option<AppConfig>) -> (r: ConfigManager)
        ensures
            match loaded {
                Some(c) => r@ == c@,
                None => default_config(r@),
            },
    {
        match loaded {
            Some(c) => ConfigManager { config: c },
            None => ConfigManager { config: AppConfig::default() },
        }
    }

    /// A copy of the current configuration.
    pub fn get(&self) -> (r: AppConfig)
        ensures
            r@ == self@,
    {
        self.config.duplicate()
    }

    /// Replace the configuration by `new_config` once it has been written: `saved` is the
    /// outcome of writing it. A failed write leaves the configuration unchanged and is
    /// returned.
    pub fn update(&mut self, new_config: AppConfig, saved: Result<(), String>) -> (r: Result<(), String>)
        ensures
            r == saved,
            saved is Ok ==> final(self)@ == new_config@,
            saved is Err ==> final(self)@ == old(self)@,
    {
        if saved.is_ok() {
            self.config = new_config;
        }
        saved
    }

    /// Change the configuration with `f`, which is called once, on the current
    /// configuration, and gives the new one; a copy of the result is returned for the
    /// caller to write out.
    pub fn update_with<F: FnOnce(AppConfig) -> AppConfig>(&mut self, f: F) -> (r: AppConfig)
        requires
            forall|c: AppConfig| c@ == old(self)@ ==> #[trigger] f.requires((c,)),
        ensures
            exists|before: AppConfig, after: AppConfig|
                before@ == old(self)@ && #[trigger] f.ensures((before,), after) && final(self)@ == after@,
            r@ == final(self)@,
    {
        let mut current = AppConfig::default();
        std::mem::swap(&mut current, &mut self.config);
        let ghost before = current;
        let next = f(current);
        self.config = next;
        self.config.duplicate()
    }

    /// Apply `edit` to the configuration and return a copy of the result, which the caller
    /// writes out.
    pub fn apply(&mut self, edit: &ConfigEdit) -> (r: AppConfig)
        ensures
            final(self)@ == apply_edit(old(self)@, edit@),
            r@ == final(self)@,
    {
        let ghost before = self.config@;
        match edit {
            ConfigEdit::SaveBackend(b) => {
                let ghost s = self.config.model.remote_backends@;
                let found = find_backend(&self.config.model.remote_backends, &b.name);
                match found {
                    Some(i) => {
                        self.config.model.remote_backends.set(i, b.duplicate());
                        assert(backend_views(self.config.model.remote_backends@) == backend_views(s).update(i as int, b@));
                    },
                    None => {
                        self.config.model.remote_backends.push(b.duplicate());
                        assert(backend_views(self.config.model.remote_backends@) == backend_views(s).push(b@));
                    },
                }
                let rules = "rules".to_owned();
                if self.config.model.default_backend == rules {
                    self.config.model.default_backend = b.name.clone();
                }
                assert(self.config.model@.remote_backends == backend_views(self.config.model.remote_backends@));
                assert(self.config@ == apply_edit(before, edit@));
            },
            ConfigEdit::DeleteBackend(name) => {
                let rest = remove_named(&self.config.model.remote_backends, name);
                if self.config.model.default_backend == *name {
                    if rest.len() > 0 {
                        self.config.model.default_backend = rest[0].name.clone();
                    } else {
                        self.config.model.default_backend = "rules".to_owned();
                    }
                }
                self.config.model.remote_backends = rest;
                assert(self.config.model@.remote_backends == backend_views(self.config.model.remote_backends@));
                assert(self.config@ == apply_edit(before, edit@));
            },
            ConfigEdit::SetDefaultBackend(name) => {
                self.config.model.default_backend = name.clone();
            },
            ConfigEdit::SetOpenPanelHotkey(s) => {
                self.config.hotkey.open_panel = s.clone();
            },
        }
        self.config.duplicate()
    }

    /// Replace the configuration by the one read again from the file, or by the default
    /// configuration when none could be read.
    pub fn reload(&mut self, loaded: Option<AppConfig>)
        ensures
            match loaded {
                Some(c) => final(self)@ == c@,
                None => default_config(final(self)@),
            },
    {
        match loaded {
            Some(c) => {
                self.config = c;
            },
            None => {
                self.config = AppConfig::default();
            },
        }
    }
}

/// Removing the backends named like one that is absent from `s` after appending it gives
/// back `s`.
pub proof fn lemma_without_appended(s: Seq<RemoteBackendConfigView>, b: RemoteBackendConfigView)
    requires
        forall|i: int| 0 <= i < s.len() ==> #[trigger] s[i].name != b.name,
    ensures
        without_named(s.push(b), b.name) == s,
    decreases s.len(),
{
    assert(s.push(b).drop_last() =~= s);
    lemma_without_absent(s, b.name);
}

/// Removing a name that no backend has changes nothing.
pub proof fn lemma_without_absent(s: Seq<RemoteBackendConfigView>, name: Seq<char>)
    requires
        forall|i: int| 0 <= i < s.len() ==> #[trigger] s[i].name != name,
    ensures
        without_named(s, name) == s,
    decreases s.len(),
{
    if s.len() > 0 {
        assert forall|i: int| 0 <= i < s.drop_last().len() implies #[trigger] s.drop_last()[i].name != name by {
            assert(s.drop_last()[i] == s[i]);
        }
        lemma_without_absent(s.drop_last(), name);
        assert(s.drop_last().push(s.last()) =~= s);
    }
}

/// A backend that is not there yet is appended when saved.
pub proof fn lemma_first_named_absent(s: Seq<RemoteBackendConfigView>, name: Seq<char>, k: int)
    requires
        0 <= k,
        forall|i: int| 0 <= i < s.len() ==> #[trigger] s[i].name != name,
    ensures
        first_named_from(s, name, k) is None,
    decreases s.len() - k,
{
    if k < s.len() {
        lemma_first_named_absent(s, name, k + 1);
    }
}

/// Saving a backend under a new name and then deleting it gives back the configuration,
/// when the default is neither that name nor, with other backends stored, the rule engine.
pub proof fn law_save_then_delete(c: AppConfigView, b: RemoteBackendConfigView)
    requires
        forall|i: int| 0 <= i < c.model.remote_backends.len() ==> #[trigger] c.model.remote_backends[i].name != b.name,
        c.model.default_backend != b.name,
        c.model.default_backend == "rules"@ ==> c.model.remote_backends.len() == 0,
    ensures
        apply_edit(apply_edit(c, ConfigEditView::SaveBackend(b)), ConfigEditView::DeleteBackend(b.name)) == c,
{
    lemma_first_named_absent(c.model.remote_backends, b.name, 0);
    lemma_without_appended(c.model.remote_backends, b);
    let saved = apply_edit(c, ConfigEditView::SaveBackend(b));
    assert(saved.model.remote_backends == c.model.remote_backends.push(b));
    let back = apply_edit(saved, ConfigEditView::DeleteBackend(b.name));
    assert(back.model.remote_backends == c.model.remote_backends);
    assert(back.model == c.model);
}

/// What `first_named_from` finds is a backend of that name at or after `k`.
proof fn lemma_first_named_found(s: Seq<RemoteBackendConfigView>, name: Seq<char>, k: int)
    requires
        0 <= k,
    ensures
        first_named_from(s, name, k) matches Some(i) ==> k <= i < s.len() && s[i].name == name,
        first_named_from(s, name, k) is None ==> forall|i: int| k <= i < s.len() ==> #[trigger] s[i].name != name,
    decreases s.len() - k,
{
    if k < s.len() && s[k].name != name {
        lemma_first_named_found(s, name, k + 1);
    }
}

/// Removing the backends named `name` leaves exactly the others.
proof fn lemma_without_named(s: Seq<RemoteBackendConfigView>, name: Seq<char>)
    ensures
        forall|x: RemoteBackendConfigView| #[trigger] without_named(s, name).contains(x) <==> (s.contains(x) && x.name != name),
    decreases s.len(),
{
    if s.len() > 0 {
        lemma_without_named(s.drop_last(), name);
        let rest = without_named(s.drop_last(), name);
        assert forall|x: RemoteBackendConfigView| #[trigger] without_named(s, name).contains(x) <==> (s.contains(x) && x.name != name) by {
            if s.contains(x) && x.name != name {
                let k = choose|k: int| 0 <= k < s.len() && s[k] == x;
                if k < s.len() - 1 {
                    assert(s.drop_last()[k] == x);
                    assert(s.drop_last().contains(x));
                    assert(rest.contains(x));
                    if s.last().name != name {
                        let j = choose|j: int| 0 <= j < rest.len() && rest[j] == x;
                        assert(rest.push(s.last())[j] == x);
                    }
                } else {
                    assert(s.last() == x);
                    assert(rest.push(s.last())[rest.len() as int] == x);
                }
            }
            if without_named(s, name).contains(x) {
                if s.last().name != name && x == s.last() {
                    assert(s[s.len() - 1] == x);
                } else {
                    if s.last().name != name {
                        let j = choose|j: int| 0 <= j < rest.len() + 1 && rest.push(s.last())[j] == x;
                        assert(j < rest.len());
                        assert(rest[j] == x);
                        assert(rest.contains(x));
                    }
                    assert(s.drop_last().contains(x));
                    let k = choose|k: int| 0 <= k < s.drop_last().len() && s.drop_last()[k] == x;
                    assert(s[k] == x);
                }
            }
        }
    }
}

/// Each targeted edit does what it says and keeps the rest: saving a backend stores it and
/// keeps every backend of another name; deleting a name leaves no backend of that name,
/// keeps every other, and never leaves the deleted name as the default; choosing the
/// default changes only the default; a new panel shortcut changes only that shortcut.
pub proof fn law_config_edits(c: AppConfigView, b: RemoteBackendConfigView, n: Seq<char>, key: Seq<char>)
    ensures
        ({
            let saved = apply_edit(c, ConfigEditView::SaveBackend(b));
            &&& saved.model.remote_backends.contains(b)
            &&& forall|x: RemoteBackendConfigView| c.model.remote_backends.contains(x) && x.name != b.name
                ==> #[trigger] saved.model.remote_backends.contains(x)
            &&& c.model.default_backend != "rules"@ ==> saved.model.default_backend == c.model.default_backend
        }),
        ({
            let deleted = apply_edit(c, ConfigEditView::DeleteBackend(n));
            &&& forall|x: RemoteBackendConfigView| #[trigger] deleted.model.remote_backends.contains(x) <==> (
                c.model.remote_backends.contains(x) && x.name != n)
            &&& deleted.model.default_backend != n || n == "rules"@
        }),
        apply_edit(c, ConfigEditView::SetDefaultBackend(n)).model.default_backend == n,
        apply_edit(c, ConfigEditView::SetDefaultBackend(n)).model.remote_backends == c.model.remote_backends,
        apply_edit(c, ConfigEditView::SetOpenPanelHotkey(key)).hotkey.open_panel == key,
        apply_edit(c, ConfigEditView::SetOpenPanelHotkey(key)).model == c.model,
{
    let s = c.model.remote_backends;
    lemma_first_named_found(s, b.name, 0);
    let up = upsert_backend(s, b);
    match first_named(s, b.name) {
        Some(i) => {
            assert(up[i] == b);
            assert forall|x: RemoteBackendConfigView| s.contains(x) && x.name != b.name implies #[trigger] up.contains(x) by {
                let k = choose|k: int| 0 <= k < s.len() && s[k] == x;
                assert(k != i);
                assert(up[k] == x);
            }
        },
        None => {
            assert(up[s.len() as int] == b);
            assert forall|x: RemoteBackendConfigView| s.contains(x) && x.name != b.name implies #[trigger] up.contains(x) by {
                let k = choose|k: int| 0 <= k < s.len() && s[k] == x;
                assert(up[k] == x);
            }
        },
    }
    lemma_without_named(s, n);
    let rest = without_named(s, n);
    if c.model.default_backend == n && rest.len() > 0 {
        assert(rest.contains(rest[0]));
    }
}

} // verus!
