use clipbrain::config::schema::{AppConfig, RemoteBackendConfig};
use clipbrain::model::backend::{BackendType, StreamChunk};
use clipbrain::model::local::llama_server::{LlamaServerBackend, LlamaUsage};
use clipbrain::model::model_manager::{
    download_progress, local_model_info, missing_model_message, recommended_models,
};
use clipbrain::model::remote::openai_compat::{
    authorization, chat_max_tokens, chat_url, completion_response, models_url, thinking_flag,
    vision_parameters, vision_transport_failure, OpenAICompatClient, RemoteConfig,
};
use clipbrain::model::remote::stream::{
    StreamChoice, StreamDelta, StreamResponseChunk, StreamState,
};
use clipbrain::model::router::InferenceRouter;
use clipbrain::model::state::{
    backend_for_test, configure_remote_backend, default_backend_for_request, default_backend_name,
    has_remote_backend, list_backends, remote_config_for, remove_remote_backend,
    register_client, restore_backends_from_config, set_default_backend,
};

fn remote(name: &str) -> RemoteConfig {
    RemoteConfig {
        name: name.to_string(),
        base_url: "http://localhost:1/v1/".to_string(),
        api_key: Some("k".to_string()),
        model: "m".to_string(),
        timeout_secs: 5,
        max_tokens: 100,
    }
}

#[test]
fn remote_config_default() {
    let c = RemoteConfig::default();
    assert_eq!(c.name, "default");
    assert_eq!(c.base_url, "https://api.openai.com/v1");
    assert_eq!(c.api_key, None);
    assert_eq!(c.model, "gpt-4o");
    assert_eq!(c.timeout_secs, 30);
    assert_eq!(c.max_tokens, 2048);
}

#[test]
fn urls_drop_trailing_slashes() {
    assert_eq!(chat_url("https://x.com/v1//"), "https://x.com/v1/chat/completions");
    assert_eq!(chat_url("https://x.com/v1"), "https://x.com/v1/chat/completions");
    assert_eq!(models_url("https://x.com/v1/"), "https://x.com/v1/models");
}

#[test]
fn request_parameters() {
    assert_eq!(thinking_flag(Some(false)), Some(false));
    assert_eq!(thinking_flag(Some(true)), None);
    assert_eq!(thinking_flag(None), None);
    assert_eq!(chat_max_tokens(None, 2048), Some(2048));
    assert_eq!(chat_max_tokens(Some(10), 2048), Some(10));
    assert_eq!(vision_parameters(None, None, 512), (512, 0.3f32.to_bits()));
    assert_eq!(vision_parameters(Some(7), Some(0.9f32.to_bits()), 512), (7, 0.9f32.to_bits()));
    assert_eq!(authorization(&Some("abc".to_string())), Some("Bearer abc".to_string()));
    assert_eq!(authorization(&Some(String::new())), None);
    assert_eq!(authorization(&None), None);
}

#[test]
fn completion_responses() {
    let r = completion_response(Some("hi".to_string()), "m".to_string(), None, "API 返回空结果").unwrap();
    assert_eq!(r.content, "hi");
    assert_eq!(completion_response(None, "m".to_string(), None, "API 返回空结果").unwrap_err(), "API 返回空结果");
    assert_eq!(vision_transport_failure(None), "Vision request failed: unknown transport error");
    assert_eq!(vision_transport_failure(Some("e".to_string())), "Vision request failed: e");
}

#[test]
fn client_keeps_its_settings() {
    let c = OpenAICompatClient::new(remote("a")).unwrap();
    assert_eq!(c.config.name, "a");
    assert!(matches!(c.backend_type(), BackendType::Remote(n) if n == "a"));
}

#[test]
fn first_configured_backend_becomes_default() {
    let mut r = InferenceRouter::new("rules".to_string());
    assert!(!has_remote_backend(&r));
    configure_remote_backend(&mut r, remote("a")).unwrap();
    assert_eq!(default_backend_name(&r), "a");
    configure_remote_backend(&mut r, remote("b")).unwrap();
    assert_eq!(default_backend_name(&r), "a");
    assert!(has_remote_backend(&r));
    let mut names = list_backends(&r);
    names.sort();
    assert_eq!(names, vec!["a".to_string(), "b".to_string()]);
    assert_eq!(default_backend_for_request(&r).unwrap().config.name, "a");
}

#[test]
fn removing_default_backend_falls_back_to_rules() {
    let mut r = InferenceRouter::new("rules".to_string());
    configure_remote_backend(&mut r, remote("a")).unwrap();
    remove_remote_backend(&mut r, "a").unwrap();
    assert_eq!(default_backend_name(&r), "rules");
    assert!(!has_remote_backend(&r));
    assert_eq!(default_backend_for_request(&r).err().unwrap(), "未配置推理后端");
    assert_eq!(backend_for_test(&r, "a").err().unwrap(), "后端 'a' 未找到");
}

#[test]
fn configure_then_remove_restores_registry() {
    let mut r = InferenceRouter::new("rules".to_string());
    configure_remote_backend(&mut r, remote("x")).unwrap();
    configure_remote_backend(&mut r, remote("y")).unwrap();
    remove_remote_backend(&mut r, "y").unwrap();
    assert_eq!(list_backends(&r), vec!["x".to_string()]);
    assert_eq!(default_backend_name(&r), "x");
}

#[test]
fn reconfiguring_replaces_settings() {
    let mut r = InferenceRouter::new("rules".to_string());
    configure_remote_backend(&mut r, remote("a")).unwrap();
    let mut changed = remote("a");
    changed.model = "other".to_string();
    configure_remote_backend(&mut r, changed).unwrap();
    assert_eq!(list_backends(&r).len(), 1);
    assert_eq!(backend_for_test(&r, "a").unwrap().config.model, "other");
    set_default_backend(&mut r, "zzz").unwrap();
    assert_eq!(default_backend_name(&r), "zzz");
}

#[test]
fn restore_registers_stored_backends_with_keychain_keys() {
    let mut cfg = AppConfig::default();
    cfg.model.remote_backends.push(RemoteBackendConfig {
        name: "a".to_string(),
        base_url: "http://localhost:1".to_string(),
        api_key: Some("file-key".to_string()),
        model: "m".to_string(),
        timeout: 5,
        max_tokens: 10,
    });
    cfg.model.default_backend = "a".to_string();
    let stored = remote_config_for(&cfg.model.remote_backends[0], &Some("keychain".to_string()));
    assert_eq!(stored.api_key, Some("keychain".to_string()));
    let fallback = remote_config_for(&cfg.model.remote_backends[0], &None);
    assert_eq!(fallback.api_key, Some("file-key".to_string()));
    let mut r = InferenceRouter::new("rules".to_string());
    restore_backends_from_config(&mut r, &cfg, &vec![None]);
    assert_eq!(list_backends(&r), vec!["a".to_string()]);
    assert_eq!(default_backend_name(&r), "a");
    assert_eq!(backend_for_test(&r, "a").unwrap().config.api_key, Some("file-key".to_string()));
    let mut r2 = InferenceRouter::new("rules".to_string());
    configure_remote_backend(&mut r2, remote("old")).unwrap();
    restore_backends_from_config(&mut r2, &cfg, &vec![Some("keychain".to_string())]);
    let a = backend_for_test(&r2, "a").unwrap();
    assert_eq!(a.config.api_key, Some("keychain".to_string()));
    assert_eq!(a.config.timeout_secs, 5);
    assert!(backend_for_test(&r2, "old").is_ok());
}

#[test]
fn stream_lines_are_split_across_chunks() {
    let mut s = StreamState::new("m".to_string());
    assert_eq!(s.feed("data: {\"a\":1}\n\nda"), vec!["{\"a\":1}".to_string()]);
    assert_eq!(s.feed("ta: [DONE]\nignored line\ndata: x"), Vec::<String>::new());
    assert_eq!(s.feed("\n"), vec!["x".to_string()]);
}

#[test]
fn stream_chunks_accumulate_and_finish() {
    let mut s = StreamState::new("m".to_string());
    let chunk = StreamResponseChunk {
        model: Some("served".to_string()),
        choices: vec![StreamChoice {
            delta: StreamDelta { content: Some("Hel".to_string()), reasoning_content: Some("think".to_string()) },
            finish_reason: None,
        }],
    };
    let pieces = s.apply_chunk(&chunk);
    assert!(matches!(&pieces[0], StreamChunk::Thinking(t) if t == "think"));
    assert!(matches!(&pieces[1], StreamChunk::Delta(t) if t == "Hel"));
    assert!(!s.is_finished());
    let last = StreamResponseChunk {
        model: None,
        choices: vec![StreamChoice {
            delta: StreamDelta { content: Some("lo".to_string()), reasoning_content: Some(String::new()) },
            finish_reason: Some("stop".to_string()),
        }],
    };
    assert_eq!(s.apply_chunk(&last).len(), 1);
    assert!(s.is_finished());
    let r = s.finish();
    assert_eq!(r.content, "Hello");
    assert_eq!(r.model, "served");
    assert!(r.usage.is_none());
}

#[test]
fn llama_server_backend() {
    let b = LlamaServerBackend::new("http://127.0.0.1:8080/", "qwen");
    assert_eq!(b.base_url, "http://127.0.0.1:8080");
    assert_eq!(b.chat_url(), "http://127.0.0.1:8080/v1/chat/completions");
    assert_eq!(b.health_url(), "http://127.0.0.1:8080/health");
    assert!(matches!(b.backend_type(), BackendType::Local(e) if e == "llama_cpp"));
    let r = b.response(None, None, Some(LlamaUsage { prompt_tokens: Some(3), completion_tokens: None, total_tokens: Some(3) }));
    assert_eq!(r.content, "");
    assert_eq!(r.model, "qwen");
    let u = r.usage.unwrap();
    assert_eq!((u.prompt_tokens, u.completion_tokens, u.total_tokens), (3, 0, 3));
}

#[test]
fn recommended_models_catalogue() {
    let m = recommended_models();
    assert_eq!(m.len(), 3);
    assert_eq!(m[0].id, "qwen2.5-1.5b-instruct");
    assert_eq!(m[1].size_mb, 2100);
    assert_eq!(m[2].filename, "qwen2.5-7b-instruct-q4_k_m.gguf");
}

#[test]
fn downloaded_model_identification() {
    let known = local_model_info("qwen2.5-3b-instruct-q4_k_m.gguf", 3 * 1024 * 1024 + 5, "/m/q.gguf");
    assert_eq!(known.id, "qwen2.5-3b-instruct");
    assert_eq!(known.size_mb, 3);
    let other = local_model_info("my.gguf", 10, "/m/my.gguf");
    assert_eq!(other.id, "my.gguf");
    assert_eq!(other.format, "gguf");
    assert_eq!(local_model_info("notes.bin", 0, "/m/n").format, "unknown");
    assert_eq!(missing_model_message("a.gguf"), "模型文件不存在: a.gguf");
}

#[test]
fn download_progress_in_hundredths() {
    assert_eq!(download_progress("m", 50, 200).percent_hundredths, 2500);
    assert_eq!(download_progress("m", 50, 0).percent_hundredths, 0);
}

#[test]
fn register_client_passes_on_a_build_failure() {
    let mut r = InferenceRouter::new("rules".to_string());
    let out = register_client(&mut r, Err("HTTP 客户端初始化失败: tls".to_string()));
    assert_eq!(out, Err("HTTP 客户端初始化失败: tls".to_string()));
    assert!(list_backends(&r).is_empty());
    assert_eq!(default_backend_name(&r), "rules");
}

#[test]
fn register_client_registers_a_built_client() {
    let mut r = InferenceRouter::new("rules".to_string());
    let client = OpenAICompatClient::new(remote("a")).unwrap();
    assert_eq!(register_client(&mut r, Ok(client)), Ok(()));
    assert_eq!(list_backends(&r), vec!["a".to_string()]);
    assert_eq!(default_backend_name(&r), "a");
}

#[test]
fn registered_backends_follow_the_last_call_on_each_name() {
    let mut r = InferenceRouter::new("rules".to_string());
    configure_remote_backend(&mut r, remote("a")).unwrap();
    configure_remote_backend(&mut r, remote("b")).unwrap();
    remove_remote_backend(&mut r, "a").unwrap();
    configure_remote_backend(&mut r, remote("c")).unwrap();
    remove_remote_backend(&mut r, "c").unwrap();
    configure_remote_backend(&mut r, remote("a")).unwrap();
    remove_remote_backend(&mut r, "zz").unwrap();
    let mut names = list_backends(&r);
    names.sort();
    assert_eq!(names, vec!["a".to_string(), "b".to_string()]);
}
