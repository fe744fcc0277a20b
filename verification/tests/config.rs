use clipbrain::config::manager::{ConfigEdit, ConfigManager};
use clipbrain::config::privacy::{
    can_send_to_remote, contains_sensitive_patterns, is_excluded_app, remote_send_check,
    should_skip_clipboard,
};
use clipbrain::config::schema::{AppConfig, RemoteBackendConfig};

fn backend(name: &str) -> RemoteBackendConfig {
    RemoteBackendConfig {
        name: name.to_string(),
        base_url: "https://api.example.com/v1".to_string(),
        api_key: None,
        model: "m".to_string(),
        timeout: 30,
        max_tokens: 2048,
    }
}

#[test]
fn default_config_values() {
    let c = AppConfig::default();
    assert_eq!(c.general.trigger_mode, "hotkey");
    assert_eq!(c.general.history_limit, 500);
    assert_eq!(c.model.default_backend, "rules");
    assert!(c.model.remote_backends.is_empty());
    assert_eq!(c.privacy.excluded_apps, vec!["1Password", "Bitwarden", "KeePassXC"]);
    assert!(!c.privacy.log_sensitive);
    assert_eq!(c.hotkey.open_panel, "Alt+CommandOrControl+C");
}

#[test]
fn excluded_apps_match_case_insensitively_by_substring() {
    let excluded = vec!["1Password".to_string(), "Bitwarden".to_string()];
    assert!(is_excluded_app("1password 8", &excluded));
    assert!(is_excluded_app("BITWARDEN", &excluded));
    assert!(!is_excluded_app("Safari", &excluded));
    assert!(!is_excluded_app("Safari", &vec![]));
}

#[test]
fn skip_clipboard_only_for_known_excluded_foreground_app() {
    let c = AppConfig::default();
    assert!(should_skip_clipboard(&c, &Some("KeePassXC".to_string())));
    assert!(!should_skip_clipboard(&c, &Some("Terminal".to_string())));
    assert!(!should_skip_clipboard(&c, &None));
}

#[test]
fn sensitive_patterns_detect_identity_card_numbers() {
    assert!(contains_sensitive_patterns("  11010519491231002X  "));
    assert!(!contains_sensitive_patterns("hello world"));
    // The phone pattern is anchored, so a list of numbers never counts three matches.
    assert!(!contains_sensitive_patterns("13800138000 13900139000 13700137000"));
}

#[test]
fn remote_sending_respects_privacy_setting() {
    let mut c = AppConfig::default();
    assert!(!can_send_to_remote(&c, "11010519491231002X"));
    assert!(can_send_to_remote(&c, "plain text"));
    c.privacy.log_sensitive = true;
    assert!(can_send_to_remote(&c, "11010519491231002X"));
}

#[test]
fn manager_starts_from_loaded_or_default_config() {
    let m = ConfigManager::new(None);
    assert_eq!(m.get().model.default_backend, "rules");
    let mut loaded = AppConfig::default();
    loaded.general.locale = "en-US".to_string();
    let m2 = ConfigManager::new(Some(loaded));
    assert_eq!(m2.get().general.locale, "en-US");
}

#[test]
fn update_keeps_config_when_write_fails() {
    let mut m = ConfigManager::new(None);
    let mut next = AppConfig::default();
    next.general.locale = "en-US".to_string();
    let r = m.update(next.clone(), Err("disk full".to_string()));
    assert_eq!(r, Err("disk full".to_string()));
    assert_eq!(m.get().general.locale, "zh-CN");
    assert_eq!(m.update(next, Ok(())), Ok(()));
    assert_eq!(m.get().general.locale, "en-US");
}

#[test]
fn saving_first_backend_makes_it_default_and_replaces_same_name() {
    let mut m = ConfigManager::new(None);
    let cfg = m.apply(&ConfigEdit::SaveBackend(backend("a")));
    assert_eq!(cfg.model.default_backend, "a");
    assert_eq!(cfg.model.remote_backends.len(), 1);
    m.apply(&ConfigEdit::SaveBackend(backend("b")));
    let mut changed = backend("a");
    changed.model = "other".to_string();
    let cfg = m.apply(&ConfigEdit::SaveBackend(changed));
    assert_eq!(cfg.model.default_backend, "a");
    assert_eq!(cfg.model.remote_backends.len(), 2);
    assert_eq!(cfg.model.remote_backends[0].model, "other");
    assert_eq!(cfg.model.remote_backends[1].name, "b");
}

#[test]
fn deleting_default_backend_falls_back_to_first_or_rules() {
    let mut m = ConfigManager::new(None);
    m.apply(&ConfigEdit::SaveBackend(backend("a")));
    m.apply(&ConfigEdit::SaveBackend(backend("b")));
    let cfg = m.apply(&ConfigEdit::DeleteBackend("a".to_string()));
    assert_eq!(cfg.model.default_backend, "b");
    let cfg = m.apply(&ConfigEdit::DeleteBackend("b".to_string()));
    assert_eq!(cfg.model.default_backend, "rules");
    assert!(cfg.model.remote_backends.is_empty());
}

#[test]
fn hotkey_and_default_edits() {
    let mut m = ConfigManager::new(None);
    let cfg = m.apply(&ConfigEdit::SetOpenPanelHotkey("Alt+V".to_string()));
    assert_eq!(cfg.hotkey.open_panel, "Alt+V");
    let cfg = m.apply(&ConfigEdit::SetDefaultBackend("x".to_string()));
    assert_eq!(cfg.model.default_backend, "x");
}

#[test]
fn reload_replaces_config() {
    let mut m = ConfigManager::new(None);
    m.apply(&ConfigEdit::SetOpenPanelHotkey("Alt+V".to_string()));
    m.reload(None);
    assert_eq!(m.get().hotkey.open_panel, "Alt+CommandOrControl+C");
}

#[test]
fn saving_then_deleting_a_new_backend_restores_the_configuration() {
    let mut m = ConfigManager::new(None);
    m.apply(&ConfigEdit::SaveBackend(backend("a")));
    let before = m.get();
    m.apply(&ConfigEdit::SaveBackend(backend("b")));
    let after = m.apply(&ConfigEdit::DeleteBackend("b".to_string()));
    assert_eq!(after.model.default_backend, before.model.default_backend);
    assert_eq!(after.model.remote_backends.len(), before.model.remote_backends.len());
    assert_eq!(after.model.remote_backends[0].name, "a");
}

#[test]
fn sensitive_content_is_refused_before_remote_sending() {
    let mut c = AppConfig::default();
    assert_eq!(
        remote_send_check(&c, "11010519491231002X"),
        Err("隐私保护: 检测到敏感内容，阻止远程发送".to_string())
    );
    assert_eq!(remote_send_check(&c, "plain text"), Ok(()));
    c.privacy.log_sensitive = true;
    assert_eq!(remote_send_check(&c, "11010519491231002X"), Ok(()));
}

#[test]
fn update_with_applies_the_given_change_once() {
    let mut m = ConfigManager::new(None);
    let mut calls = 0;
    let cfg = m.update_with(|mut c| {
        calls += 1;
        c.general.locale = "en-US".to_string();
        c
    });
    assert_eq!(calls, 1);
    assert_eq!(cfg.general.locale, "en-US");
    assert_eq!(m.get().general.locale, "en-US");
    assert_eq!(m.get().model.default_backend, "rules");
}
