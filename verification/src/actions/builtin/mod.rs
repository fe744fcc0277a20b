//! The actions that come with the assistant.
pub mod format_json;
pub mod format_yaml;
pub mod llm_actions;
pub mod llm_actions_v2;
pub mod mask_sensitive;
pub mod math_calc;
pub mod table_convert;
pub mod url_preview;
pub mod vision_actions;

use vstd::prelude::*;
use crate::actions::registry::ActionRegistry;
use crate::actions::traits::InfoView;

verus! {

/// The built-in actions, in the order they are registered.
pub open spec fn builtin_infos() -> Seq<InfoView> {
    seq![
        format_json::JsonFormatAction.info_spec(),
        format_json::JsonToYamlAction.info_spec(),
        format_yaml::YamlFormatAction.info_spec(),
        format_yaml::YamlToJsonAction.info_spec(),
        mask_sensitive::MaskSensitiveAction.info_spec(),
        math_calc::MathCalculateAction.info_spec(),
        url_preview::UrlToMarkdownAction.info_spec(),
        table_convert::TableToMarkdownAction.info_spec(),
        table_convert::TableToJsonAction.info_spec(),
        llm_actions::TranslateToChineseAction.info_spec(),
        llm_actions::TranslateToEnglishAction.info_spec(),
        llm_actions::SummarizeAction.info_spec(),
        llm_actions::CodeExplainAction.info_spec(),
        llm_actions_v2::PolishTextAction.info_spec(),
        llm_actions_v2::FixGrammarAction.info_spec(),
        llm_actions_v2::ExtractContactsAction.info_spec(),
        llm_actions_v2::GenerateRegexAction.info_spec(),
        vision_actions::ImageOcrAction.info_spec(),
        vision_actions::ImageDescribeAction.info_spec(),
        vision_actions::ImageTableExtractAction.info_spec(),
    ]
}

/// Registers every built-in action, in order.
pub fn register_builtin_actions(registry: &mut ActionRegistry)
    ensures
        final(registry)@.actions == old(registry)@.actions + builtin_infos(),
        final(registry)@.plugin_ids == old(registry)@.plugin_ids,
{
    registry.register(format_json::JsonFormatAction.info());
    registry.register(format_json::JsonToYamlAction.info());
    registry.register(format_yaml::YamlFormatAction.info());
    registry.register(format_yaml::YamlToJsonAction.info());
    registry.register(mask_sensitive::MaskSensitiveAction.info());
    registry.register(math_calc::MathCalculateAction.info());
    registry.register(url_preview::UrlToMarkdownAction.info());
    registry.register(table_convert::TableToMarkdownAction.info());
    registry.register(table_convert::TableToJsonAction.info());
    registry.register(llm_actions::TranslateToChineseAction.info());
    registry.register(llm_actions::TranslateToEnglishAction.info());
    registry.register(llm_actions::SummarizeAction.info());
    registry.register(llm_actions::CodeExplainAction.info());
    registry.register(llm_actions_v2::PolishTextAction.info());
    registry.register(llm_actions_v2::FixGrammarAction.info());
    registry.register(llm_actions_v2::ExtractContactsAction.info());
    registry.register(llm_actions_v2::GenerateRegexAction.info());
    registry.register(vision_actions::ImageOcrAction.info());
    registry.register(vision_actions::ImageDescribeAction.info());
    registry.register(vision_actions::ImageTableExtractAction.info());
    assert(registry@.actions =~= old(registry)@.actions + builtin_infos());
}

/// A built-in action, named by its kind.
#[derive(Debug, Clone, Copy, PartialEq, Eq, Structural)]
pub enum BuiltinAction {
    JsonFormat,
    JsonToYaml,
    YamlFormat,
    YamlToJson,
    MaskSensitive,
    MathCalculate,
    UrlToMarkdown,
    TableToMarkdown,
    TableToJson,
    TranslateToChinese,
    TranslateToEnglish,
    Summarize,
    CodeExplain,
    PolishText,
    FixGrammar,
    ExtractContacts,
    GenerateRegex,
    ImageOcr,
    ImageDescribe,
    ImageTableExtract,
}

/// The place of a built-in action in `builtin_infos`.
pub open spec fn builtin_index(a: BuiltinAction) -> int {
    match a {
        BuiltinAction::JsonFormat => 0,
        BuiltinAction::JsonToYaml => 1,
        BuiltinAction::YamlFormat => 2,
        BuiltinAction::YamlToJson => 3,
        BuiltinAction::MaskSensitive => 4,
        BuiltinAction::MathCalculate => 5,
        BuiltinAction::UrlToMarkdown => 6,
        BuiltinAction::TableToMarkdown => 7,
        BuiltinAction::TableToJson => 8,
        BuiltinAction::TranslateToChinese => 9,
        BuiltinAction::TranslateToEnglish => 10,
        BuiltinAction::Summarize => 11,
        BuiltinAction::CodeExplain => 12,
        BuiltinAction::PolishText => 13,
        BuiltinAction::FixGrammar => 14,
        BuiltinAction::ExtractContacts => 15,
        BuiltinAction::GenerateRegex => 16,
        BuiltinAction::ImageOcr => 17,
        BuiltinAction::ImageDescribe => 18,
        BuiltinAction::ImageTableExtract => 19,
    }
}

/// The built-in action with id `id`, if any.
pub fn builtin_for_id(id: &str) -> (r: Option<BuiltinAction>)
    ensures
        match r {
            Some(a) => builtin_infos()[builtin_index(a)].id == id@,
            None => forall|i: int| 0 <= i < builtin_infos().len() ==> builtin_infos()[i].id != id@,
        },
{
    if crate::text::str_eq(id, format_json::JsonFormatAction.id()) {
        return Some(BuiltinAction::JsonFormat);
    }
    if crate::text::str_eq(id, format_json::JsonToYamlAction.id()) {
        return Some(BuiltinAction::JsonToYaml);
    }
    if crate::text::str_eq(id, format_yaml::YamlFormatAction.id()) {
        return Some(BuiltinAction::YamlFormat);
    }
    if crate::text::str_eq(id, format_yaml::YamlToJsonAction.id()) {
        return Some(BuiltinAction::YamlToJson);
    }
    if crate::text::str_eq(id, mask_sensitive::MaskSensitiveAction.id()) {
        return Some(BuiltinAction::MaskSensitive);
    }
    if crate::text::str_eq(id, math_calc::MathCalculateAction.id()) {
        return Some(BuiltinAction::MathCalculate);
    }
    if crate::text::str_eq(id, url_preview::UrlToMarkdownAction.id()) {
        return Some(BuiltinAction::UrlToMarkdown);
    }
    if crate::text::str_eq(id, table_convert::TableToMarkdownAction.id()) {
        return Some(BuiltinAction::TableToMarkdown);
    }
    if crate::text::str_eq(id, table_convert::TableToJsonAction.id()) {
        return Some(BuiltinAction::TableToJson);
    }
    if crate::text::str_eq(id, llm_actions::TranslateToChineseAction.id()) {
        return Some(BuiltinAction::TranslateToChinese);
    }
    if crate::text::str_eq(id, llm_actions::TranslateToEnglishAction.id()) {
        return Some(BuiltinAction::TranslateToEnglish);
    }
    if crate::text::str_eq(id, llm_actions::SummarizeAction.id()) {
        return Some(BuiltinAction::Summarize);
    }
    if crate::text::str_eq(id, llm_actions::CodeExplainAction.id()) {
        return Some(BuiltinAction::CodeExplain);
    }
    if crate::text::str_eq(id, llm_actions_v2::PolishTextAction.id()) {
        return Some(BuiltinAction::PolishText);
    }
    if crate::text::str_eq(id, llm_actions_v2::FixGrammarAction.id()) {
        return Some(BuiltinAction::FixGrammar);
    }
    if crate::text::str_eq(id, llm_actions_v2::ExtractContactsAction.id()) {
        return Some(BuiltinAction::ExtractContacts);
    }
    if crate::text::str_eq(id, llm_actions_v2::GenerateRegexAction.id()) {
        return Some(BuiltinAction::GenerateRegex);
    }
    if crate::text::str_eq(id, vision_actions::ImageOcrAction.id()) {
        return Some(BuiltinAction::ImageOcr);
    }
    if crate::text::str_eq(id, vision_actions::ImageDescribeAction.id()) {
        return Some(BuiltinAction::ImageDescribe);
    }
    if crate::text::str_eq(id, vision_actions::ImageTableExtractAction.id()) {
        return Some(BuiltinAction::ImageTableExtract);
    }
    None
}

} // verus!
