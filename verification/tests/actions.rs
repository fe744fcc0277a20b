use clipbrain::actions::builtin::format_json::{JsonFormatAction, JsonToYamlAction};
use clipbrain::actions::builtin::format_yaml::{YamlFormatAction, YamlToJsonAction};
use clipbrain::actions::builtin::llm_actions::{CodeExplainAction, TranslateToChineseAction};
use clipbrain::actions::builtin::mask_sensitive::{mask_text, MaskSensitiveAction};
use clipbrain::actions::builtin::table_convert::{
    parse_table, render_markdown_table, TableToJsonAction, TableToMarkdownAction,
};
use clipbrain::actions::builtin::url_preview::{extract_title, UrlToMarkdownAction};
use clipbrain::actions::builtin::vision_actions::{build_vision_messages, image_data_url, ImageOcrAction};
use clipbrain::actions::traits::ActionInput;
use clipbrain::classifier::ContentType;
use clipbrain::encoding::base64_encode;
use clipbrain::actions::builtin::{builtin_for_id, BuiltinAction};
use clipbrain::errors::{AppError, ErrorCode};
use clipbrain::model::backend::ChatResponse;

fn input(content: &str, t: ContentType) -> ActionInput {
    ActionInput { content: content.to_string(), content_type: t, thinking: None }
}

#[test]
fn base64_matches_the_standard_alphabet_and_padding() {
    assert_eq!(base64_encode(b""), "");
    assert_eq!(base64_encode(b"M"), "TQ==");
    assert_eq!(base64_encode(b"Ma"), "TWE=");
    assert_eq!(base64_encode(b"Man"), "TWFu");
    assert_eq!(base64_encode(&[0xff, 0xfe, 0xfd, 0x00]), "//79AA==");
    assert_eq!(base64_encode(b"hello world").len(), 16);
}

#[test]
fn error_codes_and_messages() {
    assert_eq!(ErrorCode::ActionNotFound.number(), 4001);
    assert_eq!(ErrorCode::ConfigInvalid.number(), 6003);
    assert_eq!(ErrorCode::Timeout.name(), "Timeout");
    let e = AppError::action_not_found("x");
    assert_eq!(e.message, "操作 'x' 未找到");
    assert_eq!(e.display_text(), "[ActionNotFound] 操作 'x' 未找到");
    let d = AppError::new(ErrorCode::Unknown, "m").with_detail("why");
    assert_eq!(d.detail, Some("why".to_string()));
    assert_eq!(AppError::config_load("bad").message, "配置加载失败: bad");
    assert_eq!(AppError::api_key_missing("b").message, "后端 'b' 缺少 API Key");
    assert_eq!(AppError::clipboard_empty().code, ErrorCode::ClipboardEmpty);
}

#[test]
fn masking_phone_id_and_email() {
    assert_eq!(mask_text("call 13812345678 now"), "call 138****5678 now");
    assert_eq!(mask_text("id 220102200001010022"), "id 220***********0022");
    assert_eq!(mask_text("alice@example.com"), "a***@example.com");
    assert_eq!(mask_text("mail alice@example.com"), "m***@example.com");
    assert_eq!(mask_text("nothing here"), "nothing here");
    assert_eq!(mask_text("id 110105199001010021"), "id 110***********0021");
    assert_eq!(mask_text("110105199001010021 13812345678"), "110***********0021 138****5678");
    let out = MaskSensitiveAction.execute(input("13812345678", ContentType::PhoneNumber)).unwrap();
    assert_eq!(out.result, "138****5678");
    assert_eq!(out.result_type, "text");
}

#[test]
fn json_and_yaml_conversions() {
    let out = JsonFormatAction.execute(input("{\"a\":1}", ContentType::Json)).unwrap();
    assert_eq!(out.result, "{\n  \"a\": 1\n}");
    assert_eq!(out.result_type, "code");
    assert!(JsonFormatAction.execute(input("{", ContentType::Json)).unwrap_err().starts_with("JSON 解析失败: "));
    assert_eq!(JsonToYamlAction.execute(input("{\"a\":1}", ContentType::Json)).unwrap().result, "a: 1\n");
    assert_eq!(YamlToJsonAction.execute(input("a: 1", ContentType::Yaml)).unwrap().result, "{\n  \"a\": 1\n}");
    assert_eq!(YamlFormatAction.execute(input("a:   1", ContentType::Yaml)).unwrap().result, "a: 1\n");
}

#[test]
fn tables_parse_and_render() {
    let rows = parse_table("name\tage\n\nAlice\t30\n", &ContentType::TableData("tsv".to_string())).unwrap();
    assert_eq!(rows, vec![vec!["name".to_string(), "age".to_string()], vec!["Alice".to_string(), "30".to_string()]]);
    let auto = parse_table(" a , b \n1,2", &ContentType::PlainText).unwrap();
    assert_eq!(auto[0], vec!["a".to_string(), "b".to_string()]);
    assert_eq!(parse_table("  \n ", &ContentType::PlainText).unwrap_err(), "无法解析表格数据");
    assert_eq!(render_markdown_table(&rows), "| name | age |\n| --- | --- |\n| Alice | 30 |\n");
    let md = TableToMarkdownAction.execute(input("a,b\n1,2", ContentType::TableData("csv".to_string()))).unwrap();
    assert_eq!(md.result, "| a | b |\n| --- | --- |\n| 1 | 2 |\n");
    assert_eq!(md.result_type, "markdown");
}

#[test]
fn table_to_json_objects() {
    let out = TableToJsonAction.execute(input("b,a\n1,2", ContentType::TableData("csv".to_string()))).unwrap();
    assert_eq!(out.result, "[\n  {\n    \"a\": \"2\",\n    \"b\": \"1\"\n  }\n]");
    assert_eq!(out.result_type, "json");
    assert_eq!(
        TableToJsonAction.execute(input("a,b", ContentType::TableData("csv".to_string()))).unwrap_err(),
        "表格数据至少需要表头和一行数据"
    );
}

#[test]
fn page_titles_and_links() {
    assert_eq!(extract_title("<html><title> Hi </title></html>"), Some("Hi".to_string()));
    assert_eq!(extract_title("<TITLE>Up</TITLE>"), Some("Up".to_string()));
    assert_eq!(extract_title("<title>  </title>"), None);
    assert_eq!(extract_title("no title"), None);
    let a = UrlToMarkdownAction;
    let i = input("  https://e.com  ", ContentType::Url);
    assert_eq!(a.target_url(&i), "https://e.com");
    assert_eq!(a.link_output(&i, Some("<title>E</title>".to_string())).result, "[E](https://e.com)");
    assert_eq!(a.link_output(&i, None).result, "[https://e.com](https://e.com)");
}

#[test]
fn model_requests() {
    let r = TranslateToChineseAction.request(&input("hello", ContentType::PlainText));
    assert_eq!(r.messages.len(), 2);
    assert_eq!(r.messages[1].content, "hello");
    let out = TranslateToChineseAction.output(ChatResponse { content: "你好".to_string(), model: "m".to_string(), usage: None });
    assert_eq!(out.result, "你好");
    let p = CodeExplainAction.prompt(&ContentType::Code("rust".to_string()));
    assert!(p.contains("rust"));
}

#[test]
fn vision_requests() {
    assert_eq!(image_data_url(b"Man"), "data:image/png;base64,TWFu");
    let msgs = build_vision_messages("sys", "data:x", "question");
    assert_eq!(msgs.len(), 2);
    let req = ImageOcrAction.request("data:image/png;base64,AA==");
    assert_eq!(req.messages.len(), 2);
}

#[test]
fn base64_uses_only_its_alphabet_and_trailing_padding() {
    let data: Vec<u8> = (0..=255u8).collect();
    for n in 0..data.len() {
        let e = base64_encode(&data[..n]);
        let chars: Vec<char> = e.chars().collect();
        assert_eq!(chars.len(), 4 * ((n + 2) / 3));
        for (i, c) in chars.iter().enumerate() {
            let digit = c.is_ascii_alphanumeric() || *c == '+' || *c == '/';
            assert!(digit || (*c == '=' && i + 2 >= chars.len()));
        }
    }
}

#[test]
fn builtin_actions_are_found_by_id() {
    assert_eq!(builtin_for_id("json_format"), Some(BuiltinAction::JsonFormat));
    assert_eq!(builtin_for_id("image_table_extract"), Some(BuiltinAction::ImageTableExtract));
    assert_eq!(builtin_for_id("summarize"), Some(BuiltinAction::Summarize));
    assert_eq!(builtin_for_id("no_such_action"), None);
}

#[test]
fn request_temperatures_are_exact_f32_values() {
    assert_eq!(ImageOcrAction.request("data:image/png;base64,").temperature_bits, Some(0.1f32.to_bits()));
    let input = ActionInput { content: "hi".to_string(), content_type: ContentType::PlainText, thinking: None };
    assert_eq!(TranslateToChineseAction.request(&input).temperature_bits, Some(0.3f32.to_bits()));
}
