//! Model-backed translation, summary and code explanation.
use vstd::prelude::*;
use crate::actions::traits::{kinds_of, ActionInfo, InfoView};
use crate::classifier::{ContentKind, ContentType};
use crate::actions::traits::{ActionInput, ActionOutput};
use crate::model::backend::{
    chat_request_is, system_and_user, ChatRequest, ChatResponse, TEMPERATURE_0_3, TEMPERATURE_0_5,
};
use crate::text::{append_str, string_from_chars};

verus! {

/// The "Translate to Chinese" action.
pub struct TranslateToChineseAction;

impl TranslateToChineseAction {
    /// What the registry knows of this action.
    pub open spec fn info_spec(&self) -> InfoView {
        InfoView {
            id: "translate_to_chinese"@,
            display_name: "翻译为中文"@,
            display_name_en: "Translate to Chinese"@,
            description: "使用 AI 将文本翻译为中文"@,
            description_en: "Translate text to Chinese using AI"@,
            supported_types: seq![ContentKind::PlainText, ContentKind::Code(""@)],
            requires_model: true,
            estimated_duration_ms: 5000,
        }
    }

    /// Unique id.
    pub fn id(&self) -> (r: &'static str)
        ensures
            r@ == self.info_spec().id,
    {
        "translate_to_chinese"
    }

    /// Display name.
    pub fn display_name(&self) -> (r: &'static str)
        ensures
            r@ == self.info_spec().display_name,
    {
        "翻译为中文"
    }

    /// Display name in English.
    pub fn display_name_en(&self) -> (r: &'static str)
        ensures
            r@ == self.info_spec().display_name_en,
    {
        "Translate to Chinese"
    }

    /// Description.
    pub fn description(&self) -> (r: &'static str)
        ensures
            r@ == self.info_spec().description,
    {
        "使用 AI 将文本翻译为中文"
    }

    /// Description in English.
    pub fn description_en(&self) -> (r: &'static str)
        ensures
            r@ == self.info_spec().description_en,
    {
        "Translate text to Chinese using AI"
    }

    /// The content types this action handles.
    pub fn supported_types(&self) -> (r: Vec<ContentType>)
        ensures
            kinds_of(r@) == self.info_spec().supported_types,
    {
        let mut v: Vec<ContentType> = Vec::new();
        v.push(ContentType::PlainText);
        v.push(ContentType::Code("".to_owned()));
        assert(kinds_of(v@) =~= self.info_spec().supported_types);
        v
    }

    /// Whether this action needs an inference backend.
    pub fn requires_model(&self) -> (r: bool)
        ensures
            r == self.info_spec().requires_model,
    {
        true
    }

    /// Expected duration, in milliseconds.
    pub fn estimated_duration_ms(&self) -> (r: u64)
        ensures
            r == self.info_spec().estimated_duration_ms,
    {
        5000
    }

    /// What the registry keeps of this action.
    pub fn info(&self) -> (r: ActionInfo)
        ensures
            r@ == self.info_spec(),
    {
        ActionInfo {
            id: self.id().to_owned(),
            display_name: self.display_name().to_owned(),
            display_name_en: self.display_name_en().to_owned(),
            description: self.description().to_owned(),
            description_en: self.description_en().to_owned(),
            supported_types: self.supported_types(),
            requires_model: self.requires_model(),
            estimated_duration_ms: self.estimated_duration_ms(),
        }
    }
}

/// The "Translate to English" action.
pub struct TranslateToEnglishAction;

impl TranslateToEnglishAction {
    /// What the registry knows of this action.
    pub open spec fn info_spec(&self) -> InfoView {
        InfoView {
            id: "translate_to_english"@,
            display_name: "翻译为英文"@,
            display_name_en: "Translate to English"@,
            description: "使用 AI 将文本翻译为英文"@,
            description_en: "Translate text to English using AI"@,
            supported_types: seq![ContentKind::PlainText, ContentKind::Code(""@)],
            requires_model: true,
            estimated_duration_ms: 5000,
        }
    }

    /// Unique id.
    pub fn id(&self) -> (r: &'static str)
        ensures
            r@ == self.info_spec().id,
    {
        "translate_to_english"
    }

    /// Display name.
    pub fn display_name(&self) -> (r: &'static str)
        ensures
            r@ == self.info_spec().display_name,
    {
        "翻译为英文"
    }

    /// Display name in English.
    pub fn display_name_en(&self) -> (r: &'static str)
        ensures
            r@ == self.info_spec().display_name_en,
    {
        "Translate to English"
    }

    /// Description.
    pub fn description(&self) -> (r: &'static str)
        ensures
            r@ == self.info_spec().description,
    {
        "使用 AI 将文本翻译为英文"
    }

    /// Description in English.
    pub fn description_en(&self) -> (r: &'static str)
        ensures
            r@ == self.info_spec().description_en,
    {
        "Translate text to English using AI"
    }

    /// The content types this action handles.
    pub fn supported_types(&self) -> (r: Vec<ContentType>)
        ensures
            kinds_of(r@) == self.info_spec().supported_types,
    {
        let mut v: Vec<ContentType> = Vec::new();
        v.push(ContentType::PlainText);
        v.push(ContentType::Code("".to_owned()));
        assert(kinds_of(v@) =~= self.info_spec().supported_types);
        v
    }

    /// Whether this action needs an inference backend.
    pub fn requires_model(&self) -> (r: bool)
        ensures
            r == self.info_spec().requires_model,
    {
        true
    }

    /// Expected duration, in milliseconds.
    pub fn estimated_duration_ms(&self) -> (r: u64)
        ensures
            r == self.info_spec().estimated_duration_ms,
    {
        5000
    }

    /// What the registry keeps of this action.
    pub fn info(&self) -> (r: ActionInfo)
        ensures
            r@ == self.info_spec(),
    {
        ActionInfo {
            id: self.id().to_owned(),
            display_name: self.display_name().to_owned(),
            display_name_en: self.display_name_en().to_owned(),
            description: self.description().to_owned(),
            description_en: self.description_en().to_owned(),
            supported_types: self.supported_types(),
            requires_model: self.requires_model(),
            estimated_duration_ms: self.estimated_duration_ms(),
        }
    }
}

/// The "Summarize" action.
pub struct SummarizeAction;

impl SummarizeAction {
    /// What the registry knows of this action.
    pub open spec fn info_spec(&self) -> InfoView {
        InfoView {
            id: "summarize"@,
            display_name: "智能摘要"@,
            display_name_en: "Summarize"@,
            description: "使用 AI 生成文本摘要"@,
            description_en: "Generate a text summary using AI"@,
            supported_types: seq![ContentKind::PlainText],
            requires_model: true,
            estimated_duration_ms: 8000,
        }
    }

    /// Unique id.
    pub fn id(&self) -> (r: &'static str)
        ensures
            r@ == self.info_spec().id,
    {
        "summarize"
    }

    /// Display name.
    pub fn display_name(&self) -> (r: &'static str)
        ensures
            r@ == self.info_spec().display_name,
    {
        "智能摘要"
    }

    /// Display name in English.
    pub fn display_name_en(&self) -> (r: &'static str)
        ensures
            r@ == self.info_spec().display_name_en,
    {
        "Summarize"
    }

    /// Description.
    pub fn description(&self) -> (r: &'static str)
        ensures
            r@ == self.info_spec().description,
    {
        "使用 AI 生成文本摘要"
    }

    /// Description in English.
    pub fn description_en(&self) -> (r: &'static str)
        ensures
            r@ == self.info_spec().description_en,
    {
        "Generate a text summary using AI"
    }

    /// The content types this action handles.
    pub fn supported_types(&self) -> (r: Vec<ContentType>)
        ensures
            kinds_of(r@) == self.info_spec().supported_types,
    {
        let mut v: Vec<ContentType> = Vec::new();
        v.push(ContentType::PlainText);
        assert(kinds_of(v@) =~= self.info_spec().supported_types);
        v
    }

    /// Whether this action needs an inference backend.
    pub fn requires_model(&self) -> (r: bool)
        ensures
            r == self.info_spec().requires_model,
    {
        true
    }

    /// Expected duration, in milliseconds.
    pub fn estimated_duration_ms(&self) -> (r: u64)
        ensures
            r == self.info_spec().estimated_duration_ms,
    {
        8000
    }

    /// What the registry keeps of this action.
    pub fn info(&self) -> (r: ActionInfo)
        ensures
            r@ == self.info_spec(),
    {
        ActionInfo {
            id: self.id().to_owned(),
            display_name: self.display_name().to_owned(),
            display_name_en: self.display_name_en().to_owned(),
            description: self.description().to_owned(),
            description_en: self.description_en().to_owned(),
            supported_types: self.supported_types(),
            requires_model: self.requires_model(),
            estimated_duration_ms: self.estimated_duration_ms(),
        }
    }
}

/// The "Explain Code" action.
pub struct CodeExplainAction;

impl CodeExplainAction {
    /// What the registry knows of this action.
    pub open spec fn info_spec(&self) -> InfoView {
        InfoView {
            id: "code_explain"@,
            display_name: "代码解释"@,
            display_name_en: "Explain Code"@,
            description: "使用 AI 解释代码的功能和逻辑"@,
            description_en: "Explain code functionality and logic using AI"@,
            supported_types: seq![ContentKind::Code(""@)],
            requires_model: true,
            estimated_duration_ms: 10000,
        }
    }

    /// Unique id.
    pub fn id(&self) -> (r: &'static str)
        ensures
            r@ == self.info_spec().id,
    {
        "code_explain"
    }

    /// Display name.
    pub fn display_name(&self) -> (r: &'static str)
        ensures
            r@ == self.info_spec().display_name,
    {
        "代码解释"
    }

    /// Display name in English.
    pub fn display_name_en(&self) -> (r: &'static str)
        ensures
            r@ == self.info_spec().display_name_en,
    {
        "Explain Code"
    }

    /// Description.
    pub fn description(&self) -> (r: &'static str)
        ensures
            r@ == self.info_spec().description,
    {
        "使用 AI 解释代码的功能和逻辑"
    }

    /// Description in English.
    pub fn description_en(&self) -> (r: &'static str)
        ensures
            r@ == self.info_spec().description_en,
    {
        "Explain code functionality and logic using AI"
    }

    /// The content types this action handles.
    pub fn supported_types(&self) -> (r: Vec<ContentType>)
        ensures
            kinds_of(r@) == self.info_spec().supported_types,
    {
        let mut v: Vec<ContentType> = Vec::new();
        v.push(ContentType::Code("".to_owned()));
        assert(kinds_of(v@) =~= self.info_spec().supported_types);
        v
    }

    /// Whether this action needs an inference backend.
    pub fn requires_model(&self) -> (r: bool)
        ensures
            r == self.info_spec().requires_model,
    {
        true
    }

    /// Expected duration, in milliseconds.
    pub fn estimated_duration_ms(&self) -> (r: u64)
        ensures
            r == self.info_spec().estimated_duration_ms,
    {
        10000
    }

    /// What the registry keeps of this action.
    pub fn info(&self) -> (r: ActionInfo)
        ensures
            r@ == self.info_spec(),
    {
        ActionInfo {
            id: self.id().to_owned(),
            display_name: self.display_name().to_owned(),
            display_name_en: self.display_name_en().to_owned(),
            description: self.description().to_owned(),
            description_en: self.description_en().to_owned(),
            supported_types: self.supported_types(),
            requires_model: self.requires_model(),
            estimated_duration_ms: self.estimated_duration_ms(),
        }
    }
}


/// System prompt of the "TranslateToChinese" action.
pub const TRANSLATE_TO_CHINESE_PROMPT: &'static str = "你是一个专业翻译。请将用户提供的文本翻译为中文，保持原文格式。只输出翻译结果，不要添加解释。";

impl TranslateToChineseAction {
    /// The chat request this action makes for `input`.
    pub fn request(&self, input: &ActionInput) -> (r: ChatRequest)
        ensures
            chat_request_is(r, TRANSLATE_TO_CHINESE_PROMPT@, input.content@, None, Some(TEMPERATURE_0_3), input.thinking),
    {
        system_and_user(TRANSLATE_TO_CHINESE_PROMPT.to_owned(), input.content.clone(), None, Some(TEMPERATURE_0_3), input.thinking)
    }

    /// The action's output for the model's answer.
    pub fn output(&self, resp: ChatResponse) -> (r: ActionOutput)
        ensures
            r.result@ == resp.content@,
            r.result_type@ == "text"@,
    {
        ActionOutput { result: resp.content, result_type: "text".to_owned() }
    }
}

/// System prompt of the "TranslateToEnglish" action.
pub const TRANSLATE_TO_ENGLISH_PROMPT: &'static str = "You are a professional translator. Translate the user's text into English, preserving the original format. Output only the translation, no explanations.";

impl TranslateToEnglishAction {
    /// The chat request this action makes for `input`.
    pub fn request(&self, input: &ActionInput) -> (r: ChatRequest)
        ensures
            chat_request_is(r, TRANSLATE_TO_ENGLISH_PROMPT@, input.content@, None, Some(TEMPERATURE_0_3), input.thinking),
    {
        system_and_user(TRANSLATE_TO_ENGLISH_PROMPT.to_owned(), input.content.clone(), None, Some(TEMPERATURE_0_3), input.thinking)
    }

    /// The action's output for the model's answer.
    pub fn output(&self, resp: ChatResponse) -> (r: ActionOutput)
        ensures
            r.result@ == resp.content@,
            r.result_type@ == "text"@,
    {
        ActionOutput { result: resp.content, result_type: "text".to_owned() }
    }
}

/// System prompt of the "Summarize" action.
pub const SUMMARIZE_PROMPT: &'static str = "请为用户提供的文本生成简明扼要的摘要。突出关键信息，使用要点列表格式。";

impl SummarizeAction {
    /// The chat request this action makes for `input`.
    pub fn request(&self, input: &ActionInput) -> (r: ChatRequest)
        ensures
            chat_request_is(r, SUMMARIZE_PROMPT@, input.content@, Some(1024u32), Some(TEMPERATURE_0_5), input.thinking),
    {
        system_and_user(SUMMARIZE_PROMPT.to_owned(), input.content.clone(), Some(1024u32), Some(TEMPERATURE_0_5), input.thinking)
    }

    /// The action's output for the model's answer.
    pub fn output(&self, resp: ChatResponse) -> (r: ActionOutput)
        ensures
            r.result@ == resp.content@,
            r.result_type@ == "markdown"@,
    {
        ActionOutput { result: resp.content, result_type: "markdown".to_owned() }
    }
}

/// First part of the system prompt of the "Explain Code" action, before the language hint.
pub const CODE_EXPLAIN_PROMPT_HEAD: &'static str = "你是一位资深程序员。请解释以下代码的功能和关键逻辑";

/// Last part of the system prompt of the "Explain Code" action, after the language hint.
pub const CODE_EXPLAIN_PROMPT_TAIL: &'static str = "。\n\
                     要求：\n\
                     1. 先用一句话概述功能\n\
                     2. 逐段解释关键逻辑\n\
                     3. 指出潜在问题（如有）\n\
                     使用中文回答。";

/// The language hint for code content with a known language, empty otherwise.
pub open spec fn language_hint(ct: ContentKind) -> Seq<char> {
    match ct {
        ContentKind::Code(l) => if l.len() > 0 {
            "（语言: "@ + l + "）"@
        } else {
            Seq::empty()
        },
        _ => Seq::empty(),
    }
}

/// The system prompt of the "Explain Code" action for content of type `ct`.
pub open spec fn code_explain_prompt(ct: ContentKind) -> Seq<char> {
    CODE_EXPLAIN_PROMPT_HEAD@ + language_hint(ct) + CODE_EXPLAIN_PROMPT_TAIL@
}

impl CodeExplainAction {
    /// The system prompt for content of this type.
    pub fn prompt(&self, content_type: &ContentType) -> (r: String)
        ensures
            r@ == code_explain_prompt(content_type@),
    {
        let mut p: Vec<char> = Vec::new();
        append_str(&mut p, CODE_EXPLAIN_PROMPT_HEAD);
        match content_type {
            ContentType::Code(lang) => {
                if !lang.as_str().is_empty() {
                    append_str(&mut p, "（语言: ");
                    append_str(&mut p, lang.as_str());
                    append_str(&mut p, "）");
                }
            },
            _ => {},
        }
        append_str(&mut p, CODE_EXPLAIN_PROMPT_TAIL);
        assert(p@ =~= code_explain_prompt(content_type@));
        string_from_chars(&p)
    }

    /// The chat request this action makes for `input`.
    pub fn request(&self, input: &ActionInput) -> (r: ChatRequest)
        ensures
            chat_request_is(r, code_explain_prompt(input.content_type@), input.content@, Some(2048u32), Some(TEMPERATURE_0_3), input.thinking),
    {
        system_and_user(self.prompt(&input.content_type), input.content.clone(), Some(2048u32), Some(TEMPERATURE_0_3), input.thinking)
    }

    /// The action's output for the model's answer.
    pub fn output(&self, resp: ChatResponse) -> (r: ActionOutput)
        ensures
            r.result@ == resp.content@,
            r.result_type@ == "markdown"@,
    {
        ActionOutput { result: resp.content, result_type: "markdown".to_owned() }
    }
}

} // verus!
