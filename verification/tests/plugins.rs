use clipbrain::actions::plugin::loader::validate_plugin;
use clipbrain::actions::plugin::plugin_action::PluginAction;
use clipbrain::actions::plugin::schema::{
    default_output_type, PluginActionDef, PluginConfig, PluginMeta, PluginTrigger,
};
use clipbrain::actions::plugin::store::{
    builtin_plugin_file, builtin_plugins, find_store_entry, is_builtin_plugin, merge_store_index,
    store_url, uninstall_target, StorePluginEntry, UninstallTarget,
};
use clipbrain::actions::traits::ActionInput;
use clipbrain::classifier::ContentType;
use clipbrain::commands::plugin_cmds::plugin_info;
use clipbrain::model::backend::ChatResponse;

fn config(id: &str, prompt: &str, user: Option<&str>, types: &[&str]) -> PluginConfig {
    PluginConfig {
        plugin: PluginMeta {
            id: id.to_string(),
            name: "Name".to_string(),
            description: "Desc".to_string(),
            version: "1.0".to_string(),
            author: None,
        },
        trigger: PluginTrigger { content_types: types.iter().map(|s| s.to_string()).collect() },
        action: PluginActionDef {
            system_prompt: prompt.to_string(),
            user_prompt: user.map(|s| s.to_string()),
            output_type: default_output_type(),
            max_tokens: Some(100),
            temperature_bits: Some(0.0f32.to_bits()),
        },
    }
}

fn entry(id: &str) -> StorePluginEntry {
    StorePluginEntry {
        id: id.to_string(),
        name: id.to_string(),
        description: String::new(),
        version: "1".to_string(),
        author: "x".to_string(),
        download_url: "https://e/x.toml".to_string(),
        content_types: vec![],
        downloads: 3,
    }
}

#[test]
fn content_type_names() {
    assert_eq!(PluginAction::parse_content_type("Json"), Some(ContentType::Json));
    assert_eq!(PluginAction::parse_content_type("Code"), Some(ContentType::Code(String::new())));
    assert_eq!(PluginAction::parse_content_type("Code(rust)"), Some(ContentType::Code(String::new())));
    assert_eq!(PluginAction::parse_content_type("TableDataX"), Some(ContentType::TableData(String::new())));
    assert_eq!(PluginAction::parse_content_type("Image"), None);
    assert_eq!(PluginAction::parse_content_type("json"), None);
}

#[test]
fn template_rendering_replaces_every_placeholder() {
    assert_eq!(PluginAction::render_template("a {{content}} b {{content}}", "X"), "a X b X");
    assert_eq!(PluginAction::render_template("none", "X"), "none");
}

#[test]
fn plugin_action_metadata_and_request() {
    let a = PluginAction::new(config("p", "Sys: {{content}}", None, &["PlainText", "Bogus", "Code"]), "/p.toml".to_string());
    assert_eq!(a.id(), "p");
    assert_eq!(a.supported_types(), vec![ContentType::PlainText, ContentType::Code(String::new())]);
    let info = a.info();
    assert_eq!(info.display_name_en, "Name");
    assert_eq!(info.estimated_duration_ms, 8000);
    assert!(info.requires_model);
    let input = ActionInput { content: "hi".to_string(), content_type: ContentType::PlainText, thinking: None };
    let req = a.request(&input);
    assert_eq!(req.messages[0].content, "Sys: hi");
    assert_eq!(req.messages[1].content, "hi");
    assert_eq!(req.max_tokens, Some(100));
    let out = a.output(ChatResponse { content: "ok".to_string(), model: "m".to_string(), usage: None });
    assert_eq!(out.result_type, "text");
}

#[test]
fn user_prompt_template_is_rendered() {
    let a = PluginAction::new(config("p", "S", Some("U {{content}}"), &[]), String::new());
    let input = ActionInput { content: "c".to_string(), content_type: ContentType::PlainText, thinking: None };
    assert_eq!(a.request(&input).messages[1].content, "U c");
}

#[test]
fn plugin_validation() {
    assert_eq!(validate_plugin(config("", "S", None, &[]), String::new()).err().unwrap(), "插件 ID 不能为空");
    assert_eq!(validate_plugin(config("p", "", None, &[]), String::new()).err().unwrap(), "system_prompt 不能为空");
    assert!(validate_plugin(config("p", "S", None, &[]), String::new()).is_ok());
}

#[test]
fn builtin_plugins_and_store() {
    assert!(is_builtin_plugin("sql_format"));
    assert!(!is_builtin_plugin("other"));
    let b = builtin_plugins();
    assert_eq!(b.len(), 1);
    assert_eq!(b[0].0.content_types, vec!["PlainText", "Code"]);
    let (e, file) = builtin_plugin_file("sql_format").unwrap();
    assert_eq!(e.name, "SQL Format");
    assert!(file.starts_with("[plugin]"));
    assert!(file.ends_with("temperature = 0.0"));
    assert_eq!(builtin_plugin_file("zz").err().unwrap(), "Builtin plugin 'zz' not found");
    assert_eq!(store_url(), "https://raw.githubusercontent.com/clipbrain/plugin-store/main/index.json");
}

#[test]
fn store_index_puts_missing_builtins_first() {
    let idx = merge_store_index(vec![entry("a")]);
    assert_eq!(idx.version, "1");
    let ids: Vec<&str> = idx.plugins.iter().map(|p| p.id.as_str()).collect();
    assert_eq!(ids, vec!["sql_format", "a"]);
    let idx2 = merge_store_index(vec![entry("a"), entry("sql_format")]);
    let ids2: Vec<&str> = idx2.plugins.iter().map(|p| p.id.as_str()).collect();
    assert_eq!(ids2, vec!["a", "sql_format"]);
    assert_eq!(find_store_entry(&idx, "a").unwrap().downloads, 3);
    assert_eq!(find_store_entry(&idx, "b").err().unwrap(), "Plugin 'b' not found in store");
}

#[test]
fn uninstall_targets() {
    assert!(matches!(uninstall_target("p", true, true), Ok(UninstallTarget::Directory)));
    assert!(matches!(uninstall_target("p", false, true), Ok(UninstallTarget::File)));
    assert_eq!(uninstall_target("p", false, false).err().unwrap(), "Plugin 'p' not found");
}

#[test]
fn plugin_listing() {
    let info = plugin_info(&config("p", "S", None, &["Json"]));
    assert_eq!(info.id, "p");
    assert_eq!(info.version, "1.0");
    assert_eq!(info.content_types, vec!["Json"]);
}
