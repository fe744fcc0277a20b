use clipbrain::actions::plugin::plugin_action::PluginAction;
use clipbrain::actions::plugin::schema::{PluginActionDef, PluginConfig, PluginMeta, PluginTrigger};
use clipbrain::actions::registry::ActionRegistry;
use clipbrain::classifier::ContentType;
use clipbrain::commands::action_cmds::{
    action_not_found, custom_prompt_request, history_model, initial_registry, list_actions_for_type,
    list_all_action_descriptors, quick_action_done, quick_action_input, quick_action_not_found,
    reload_registry_plugins, ActionStreamPayload,
};
use clipbrain::commands::clipboard_cmds::{
    clipboard_result_for_files, clipboard_result_for_text, normalize_file_paths, png_data_url,
    stringify_file_list,
};
use clipbrain::commands::config_cmds::{autostart_result, greet, onboarding_flag_path};
use clipbrain::commands::history_cmds::{
    app_bundle_candidates, clear_over_size_guard, count_over_size_guard, found_app_path,
    icon_file_name, icon_path, image_mime_for_extension, image_preview, is_text_previewable,
    preview_kind, text_preview, PreviewKind,
};
use clipbrain::commands::model_cmds::{
    connection_result, delete_model_config, list_model_configs, save_model_config,
    set_active_model, setup_result, ModelConfigInput,
};
use clipbrain::commands::stats_cmds::get_stats;
use clipbrain::config::manager::ConfigManager;
use clipbrain::model::backend::StreamChunk;
use clipbrain::model::router::InferenceRouter;
use clipbrain::model::state::default_backend_name;
use clipbrain::storage::action_history::{ActionStats, ActionUsageStat};

fn input(name: &str) -> ModelConfigInput {
    ModelConfigInput {
        name: name.to_string(),
        base_url: "http://localhost:1/v1".to_string(),
        api_key: "sk".to_string(),
        model: "m".to_string(),
        timeout_secs: None,
        max_tokens: Some(64),
    }
}

#[test]
fn registry_at_start_and_after_reload() {
    let mut r = initial_registry(vec![]);
    let all = list_all_action_descriptors(&r, "en-US");
    assert_eq!(all.len(), 20);
    assert_eq!(all[0].id, "json_format");
    assert_eq!(reload_registry_plugins(&mut r, vec![]), 0);
    let json = list_actions_for_type(&r, &ContentType::Json, "zh-CN");
    assert!(json.iter().any(|d| d.id == "json_format"));
    assert_eq!(ActionRegistry::new().list_all_descriptors("zh-CN").len(), 0);
}

#[test]
fn action_messages_and_payloads() {
    assert_eq!(action_not_found("x"), "操作 'x' 未找到");
    assert_eq!(quick_action_not_found("x"), "Action 'x' not found");
    assert_eq!(history_model(String::new()), None);
    assert_eq!(history_model("gpt".to_string()), Some("gpt".to_string()));
    let p = ActionStreamPayload::for_chunk("a".to_string(), StreamChunk::Delta("d".to_string()));
    assert_eq!((p.event_type.as_str(), p.content.as_str()), ("delta", "d"));
    let p = ActionStreamPayload::start("a".to_string());
    assert_eq!(p.event_type, "start");
    let p = ActionStreamPayload::done("a".to_string(), "text".to_string());
    assert_eq!((p.event_type.as_str(), p.result_type.as_str()), ("done", "text"));
    let p = ActionStreamPayload::error("a".to_string(), "bad".to_string());
    assert_eq!((p.event_type.as_str(), p.content.as_str()), ("error", "bad"));
}

#[test]
fn quick_action_input_rejects_blank_clipboard() {
    assert_eq!(quick_action_input("  \n".to_string()), Err("Clipboard is empty".to_string()));
    assert_eq!(quick_action_input(" a ".to_string()), Ok(" a ".to_string()));
    let r = quick_action_done("id".to_string(), "res".to_string());
    assert!(r.success);
    assert_eq!(r.message, "res");
}

#[test]
fn custom_prompt_request_shape() {
    let r = custom_prompt_request("content".to_string(), "prompt".to_string(), Some(false));
    assert_eq!(r.messages[0].role, "system");
    assert_eq!(r.messages[0].content, "prompt");
    assert_eq!(r.messages[1].content, "content");
    assert_eq!(r.temperature_bits, Some(0.5f32.to_bits()));
    assert_eq!(r.max_tokens, None);
    assert_eq!(r.thinking, Some(false));
}

#[test]
fn clipboard_results() {
    let paths = vec!["/a/b.txt".to_string(), "/c".to_string()];
    assert_eq!(stringify_file_list(&paths), "/a/b.txt\n/c");
    let r = clipboard_result_for_files(&paths);
    assert_eq!(r.content_type, ContentType::FileList);
    assert_eq!(clipboard_result_for_text("   ".to_string()).err().unwrap(), "剪贴板为空");
    let r = clipboard_result_for_text("https://github.com/user/repo".to_string()).unwrap();
    assert_eq!(r.content_type, ContentType::Url);
    assert_eq!(
        normalize_file_paths(&vec!["  /x ".to_string(), "  ".to_string()]).unwrap(),
        vec!["/x".to_string()]
    );
    assert_eq!(normalize_file_paths(&vec![" ".to_string()]).err().unwrap(), "没有可写入剪贴板的文件");
    assert_eq!(png_data_url(b"Man"), "data:image/png;base64,TWFu");
}

#[test]
fn history_guards_and_icons() {
    assert!(count_over_size_guard(0).is_ok());
    assert_eq!(count_over_size_guard(-1).err().unwrap(), "min_bytes 必须 >= 0");
    assert_eq!(clear_over_size_guard(0).err().unwrap(), "min_bytes 必须 > 0");
    assert!(clear_over_size_guard(1).is_ok());
    assert_eq!(icon_file_name("Visual Studio Code"), "Visual_Studio_Code.png");
    assert_eq!(icon_file_name("微信-app_1"), "微信-app_1.png");
    let c = app_bundle_candidates("Notes");
    assert_eq!(c[2], "/System/Applications/Utilities/Notes.app");
    assert_eq!(found_app_path("  /Applications/X.app \n/other", "X").unwrap(), "/Applications/X.app");
    assert_eq!(found_app_path("", "X").err().unwrap(), "未找到应用: X");
    assert_eq!(icon_path("/A.app", "AppIcon"), "/A.app/Contents/Resources/AppIcon.icns");
    assert_eq!(icon_path("/A.app", "a.icns"), "/A.app/Contents/Resources/a.icns");
}

#[test]
fn file_preview_kinds() {
    assert!(is_text_previewable(Some("rs")));
    assert!(!is_text_previewable(Some("png")));
    assert!(!is_text_previewable(None));
    assert_eq!(image_mime_for_extension(Some("jpeg")), Some("image/jpeg"));
    assert_eq!(image_mime_for_extension(Some("svg")), Some("image/svg+xml"));
    assert_eq!(image_mime_for_extension(Some("txt")), None);
    assert!(matches!(preview_kind(false, Some("png")), PreviewKind::Image("image/png")));
    assert!(matches!(preview_kind(false, Some("md")), PreviewKind::Text));
    assert!(matches!(preview_kind(true, Some("md")), PreviewKind::Icon));
    assert!(matches!(preview_kind(false, None), PreviewKind::Icon));
    let t = text_preview("/f".to_string(), "f".to_string(), None, "a\0b", 20000, 16384);
    assert_eq!(t.text, Some("a b".to_string()));
    assert!(t.truncated);
    let i = image_preview("/p.png".to_string(), "p.png".to_string(), Some("png".to_string()), "image/png", b"Ma");
    assert_eq!(i.data_url, Some("data:image/png;base64,TWE=".to_string()));
    assert_eq!(i.kind, "image");
}

#[test]
fn stats_use_display_names() {
    let registry = initial_registry(vec![]);
    let stats = ActionStats {
        total_count: 3,
        total_duration_ms: 30,
        top_actions: vec![
            ActionUsageStat { action_id: "json_format".to_string(), display_name: "json_format".to_string(), count: 2, total_duration_ms: 20 },
            ActionUsageStat { action_id: "custom_prompt".to_string(), display_name: "custom_prompt".to_string(), count: 1, total_duration_ms: 10 },
            ActionUsageStat { action_id: "gone".to_string(), display_name: "gone".to_string(), count: 1, total_duration_ms: 0 },
        ],
        daily_trend: vec![],
    };
    let en = get_stats(Some("en-US".to_string()), Ok(stats.clone()), &registry).unwrap();
    assert_eq!(en.top_actions[0].display_name, "Format JSON");
    assert_eq!(en.top_actions[1].display_name, "Custom Action");
    assert_eq!(en.top_actions[2].display_name, "gone");
    let zh = get_stats(None, Ok(stats), &registry).unwrap();
    assert_eq!(zh.top_actions[1].display_name, "自定义操作");
    assert_eq!(get_stats(None, Err("e".to_string()), &registry).err().unwrap(), "e");
}

#[test]
fn model_configuration_commands() {
    let mut router = InferenceRouter::new("rules".to_string());
    let mut manager = ConfigManager::new(None);
    let (cfg, msg) = save_model_config(&mut router, &mut manager, &input("a"), true).unwrap();
    assert_eq!(msg, "后端 'a' 已配置（API Key 已安全存储）");
    assert_eq!(cfg.model.default_backend, "a");
    assert_eq!(cfg.model.remote_backends[0].api_key, None);
    assert_eq!(cfg.model.remote_backends[0].timeout, 30);
    let (_, msg) = save_model_config(&mut router, &mut manager, &input("b"), false).unwrap();
    assert_eq!(msg, "后端 'b' 已配置（API Key 仅在内存中）");
    let listed = list_model_configs(&manager.get(), &vec![Some("kc".to_string()), None]);
    assert_eq!(listed[0].api_key, "kc");
    assert_eq!(listed[1].api_key, "sk");
    assert!(listed[0].is_active && !listed[1].is_active);
    assert_eq!(set_active_model(&mut router, &mut manager, "zz".to_string()).err().unwrap(), "配置 'zz' 不存在");
    let (cfg, msg) = set_active_model(&mut router, &mut manager, "b".to_string()).unwrap();
    assert_eq!(msg, "已切换到 'b'");
    assert_eq!(cfg.model.default_backend, "b");
    assert_eq!(default_backend_name(&router), "b");
    let (cfg, msg) = delete_model_config(&mut router, &mut manager, "b".to_string());
    assert_eq!(msg, "后端 'b' 已删除");
    assert_eq!(cfg.model.default_backend, "a");
    assert_eq!(default_backend_name(&router), "rules");
}

#[test]
fn connection_messages() {
    assert_eq!(connection_result("a", Ok(true)), Ok("后端 'a' 连接成功".to_string()));
    assert_eq!(connection_result("a", Ok(false)), Err("后端 'a' 连接失败".to_string()));
    assert_eq!(setup_result("a", Err("x".to_string())), Err("后端 'a' 已保存但连接测试出错: x".to_string()));
    assert_eq!(setup_result("a", Ok(true)), Ok("后端 'a' 配置成功且连接正常 ✓".to_string()));
}

#[test]
fn config_commands() {
    assert_eq!(greet("Ann"), "Hello, Ann! Welcome to ClipBrain.");
    assert_eq!(onboarding_flag_path(Some("/home/u".to_string())), "/home/u/.clipbrain/.onboarding_done");
    assert_eq!(onboarding_flag_path(None), ".clipbrain/.onboarding_done");
    assert_eq!(autostart_result(true, Err("x".to_string())), Err("启用开机自启动失败: x".to_string()));
    assert_eq!(autostart_result(false, Ok(())), Ok(()));
}

#[test]
fn reloading_the_same_plugins_twice_changes_nothing() {
    let plugin = PluginAction::new(
        PluginConfig {
            plugin: PluginMeta { id: "p".to_string(), name: "P".to_string(), description: "d".to_string(), version: "1".to_string(), author: None },
            trigger: PluginTrigger { content_types: vec!["PlainText".to_string()] },
            action: PluginActionDef { system_prompt: "s".to_string(), user_prompt: None, output_type: "text".to_string(), max_tokens: None, temperature_bits: None },
        },
        String::new(),
    );
    let mut r = initial_registry(vec![plugin.info()]);
    assert_eq!(reload_registry_plugins(&mut r, vec![plugin.info()]), 1);
    let once: Vec<String> = list_all_action_descriptors(&r, "zh-CN").into_iter().map(|d| d.id).collect();
    reload_registry_plugins(&mut r, vec![plugin.info()]);
    let twice: Vec<String> = list_all_action_descriptors(&r, "zh-CN").into_iter().map(|d| d.id).collect();
    assert_eq!(once, twice);
    assert_eq!(once.len(), 21);
    assert_eq!(once[20], "p");
}
