//! Model-backed polishing, grammar fixing, contact extraction and regex generation.
use vstd::prelude::*;
use crate::actions::traits::{kinds_of, ActionInfo, InfoView};
use crate::classifier::{ContentKind, ContentType};
use crate::actions::traits::{ActionInput, ActionOutput};
use crate::model::backend::{
    chat_request_is, system_and_user, ChatRequest, ChatResponse, TEMPERATURE_0_1, TEMPERATURE_0_2,
    TEMPERATURE_0_5,
};

verus! {

/// The "Polish Text" action.
pub struct PolishTextAction;

impl PolishTextAction {
    /// What the registry knows of this action.
    pub open spec fn info_spec(&self) -> InfoView {
        InfoView {
            id: "polish_text"@,
            display_name: "文本润色"@,
            display_name_en: "Polish Text"@,
            description: "使用 AI 润色文本，使其更流畅、专业"@,
            description_en: "Polish text to make it more fluent and professional"@,
            supported_types: seq![ContentKind::PlainText],
            requires_model: true,
            estimated_duration_ms: 6000,
        }
    }

    /// Unique id.
    pub fn id(&self) -> (r: &'static str)
        ensures
            r@ == self.info_spec().id,
    {
        "polish_text"
    }

    /// Display name.
    pub fn display_name(&self) -> (r: &'static str)
        ensures
            r@ == self.info_spec().display_name,
    {
        "文本润色"
    }

    /// Display name in English.
    pub fn display_name_en(&self) -> (r: &'static str)
        ensures
            r@ == self.info_spec().display_name_en,
    {
        "Polish Text"
    }

    /// Description.
    pub fn description(&self) -> (r: &'static str)
        ensures
            r@ == self.info_spec().description,
    {
        "使用 AI 润色文本，使其更流畅、专业"
    }

    /// Description in English.
    pub fn description_en(&self) -> (r: &'static str)
        ensures
            r@ == self.info_spec().description_en,
    {
        "Polish text to make it more fluent and professional"
    }

    /// The content types this action handles.
    pub fn supported_types(&self) -> (r: Vec<ContentType>)
        ensures
            kinds_of(r@) == self.info_spec().supported_types,
    {
        let mut v: Vec<ContentType> = Vec::new();
        v.push(ContentType::PlainText);
        assert(kinds_of(v@) =~= self.info_spec().supported_types);
        v
    }

    /// Whether this action needs an inference backend.
    pub fn requires_model(&self) -> (r: bool)
        ensures
            r == self.info_spec().requires_model,
    {
        true
    }

    /// Expected duration, in milliseconds.
    pub fn estimated_duration_ms(&self) -> (r: u64)
        ensures
            r == self.info_spec().estimated_duration_ms,
    {
        6000
    }

    /// What the registry keeps of this action.
    pub fn info(&self) -> (r: ActionInfo)
        ensures
            r@ == self.info_spec(),
    {
        ActionInfo {
            id: self.id().to_owned(),
            display_name: self.display_name().to_owned(),
            display_name_en: self.display_name_en().to_owned(),
            description: self.description().to_owned(),
            description_en: self.description_en().to_owned(),
            supported_types: self.supported_types(),
            requires_model: self.requires_model(),
            estimated_duration_ms: self.estimated_duration_ms(),
        }
    }
}

/// The "Fix English Grammar" action.
pub struct FixGrammarAction;

impl FixGrammarAction {
    /// What the registry knows of this action.
    pub open spec fn info_spec(&self) -> InfoView {
        InfoView {
            id: "fix_grammar"@,
            display_name: "英文语法纠错"@,
            display_name_en: "Fix English Grammar"@,
            description: "使用 AI 修正英文语法错误，并标注修改说明"@,
            description_en: "Fix English grammar errors and annotate changes"@,
            supported_types: seq![ContentKind::PlainText],
            requires_model: true,
            estimated_duration_ms: 6000,
        }
    }

    /// Unique id.
    pub fn id(&self) -> (r: &'static str)
        ensures
            r@ == self.info_spec().id,
    {
        "fix_grammar"
    }

    /// Display name.
    pub fn display_name(&self) -> (r: &'static str)
        ensures
            r@ == self.info_spec().display_name,
    {
        "英文语法纠错"
    }

    /// Display name in English.
    pub fn display_name_en(&self) -> (r: &'static str)
        ensures
            r@ == self.info_spec().display_name_en,
    {
        "Fix English Grammar"
    }

    /// Description.
    pub fn description(&self) -> (r: &'static str)
        ensures
            r@ == self.info_spec().description,
    {
        "使用 AI 修正英文语法错误，并标注修改说明"
    }

    /// Description in English.
    pub fn description_en(&self) -> (r: &'static str)
        ensures
            r@ == self.info_spec().description_en,
    {
        "Fix English grammar errors and annotate changes"
    }

    /// The content types this action handles.
    pub fn supported_types(&self) -> (r: Vec<ContentType>)
        ensures
            kinds_of(r@) == self.info_spec().supported_types,
    {
        let mut v: Vec<ContentType> = Vec::new();
        v.push(ContentType::PlainText);
        assert(kinds_of(v@) =~= self.info_spec().supported_types);
        v
    }

    /// Whether this action needs an inference backend.
    pub fn requires_model(&self) -> (r: bool)
        ensures
            r == self.info_spec().requires_model,
    {
        true
    }

    /// Expected duration, in milliseconds.
    pub fn estimated_duration_ms(&self) -> (r: u64)
        ensures
            r == self.info_spec().estimated_duration_ms,
    {
        6000
    }

    /// What the registry keeps of this action.
    pub fn info(&self) -> (r: ActionInfo)
        ensures
            r@ == self.info_spec(),
    {
        ActionInfo {
            id: self.id().to_owned(),
            display_name: self.display_name().to_owned(),
            display_name_en: self.display_name_en().to_owned(),
            description: self.description().to_owned(),
            description_en: self.description_en().to_owned(),
            supported_types: self.supported_types(),
            requires_model: self.requires_model(),
            estimated_duration_ms: self.estimated_duration_ms(),
        }
    }
}

/// The "Extract Contacts" action.
pub struct ExtractContactsAction;

impl ExtractContactsAction {
    /// What the registry knows of this action.
    pub open spec fn info_spec(&self) -> InfoView {
        InfoView {
            id: "extract_contacts"@,
            display_name: "提取联系人"@,
            display_name_en: "Extract Contacts"@,
            description: "使用 AI 从文本中提取姓名、电话、邮箱等联系信息"@,
            description_en: "Extract names, phones, emails, and other contact info from text"@,
            supported_types: seq![ContentKind::PlainText, ContentKind::Email, ContentKind::PhoneNumber],
            requires_model: true,
            estimated_duration_ms: 5000,
        }
    }

    /// Unique id.
    pub fn id(&self) -> (r: &'static str)
        ensures
            r@ == self.info_spec().id,
    {
        "extract_contacts"
    }

    /// Display name.
    pub fn display_name(&self) -> (r: &'static str)
        ensures
            r@ == self.info_spec().display_name,
    {
        "提取联系人"
    }

    /// Display name in English.
    pub fn display_name_en(&self) -> (r: &'static str)
        ensures
            r@ == self.info_spec().display_name_en,
    {
        "Extract Contacts"
    }

    /// Description.
    pub fn description(&self) -> (r: &'static str)
        ensures
            r@ == self.info_spec().description,
    {
        "使用 AI 从文本中提取姓名、电话、邮箱等联系信息"
    }

    /// Description in English.
    pub fn description_en(&self) -> (r: &'static str)
        ensures
            r@ == self.info_spec().description_en,
    {
        "Extract names, phones, emails, and other contact info from text"
    }

    /// The content types this action handles.
    pub fn supported_types(&self) -> (r: Vec<ContentType>)
        ensures
            kinds_of(r@) == self.info_spec().supported_types,
    {
        let mut v: Vec<ContentType> = Vec::new();
        v.push(ContentType::PlainText);
        v.push(ContentType::Email);
        v.push(ContentType::PhoneNumber);
        assert(kinds_of(v@) =~= self.info_spec().supported_types);
        v
    }

    /// Whether this action needs an inference backend.
    pub fn requires_model(&self) -> (r: bool)
        ensures
            r == self.info_spec().requires_model,
    {
        true
    }

    /// Expected duration, in milliseconds.
    pub fn estimated_duration_ms(&self) -> (r: u64)
        ensures
            r == self.info_spec().estimated_duration_ms,
    {
        5000
    }

    /// What the registry keeps of this action.
    pub fn info(&self) -> (r: ActionInfo)
        ensures
            r@ == self.info_spec(),
    {
        ActionInfo {
            id: self.id().to_owned(),
            display_name: self.display_name().to_owned(),
            display_name_en: self.display_name_en().to_owned(),
            description: self.description().to_owned(),
            description_en: self.description_en().to_owned(),
            supported_types: self.supported_types(),
            requires_model: self.requires_model(),
            estimated_duration_ms: self.estimated_duration_ms(),
        }
    }
}

/// The "Generate Regex" action.
pub struct GenerateRegexAction;

impl GenerateRegexAction {
    /// What the registry knows of this action.
    pub open spec fn info_spec(&self) -> InfoView {
        InfoView {
            id: "generate_regex"@,
            display_name: "生成正则表达式"@,
            display_name_en: "Generate Regex"@,
            description: "使用 AI 根据示例文本生成匹配的正则表达式"@,
            description_en: "Generate a matching regex from sample text using AI"@,
            supported_types: seq![ContentKind::PlainText, ContentKind::Code(""@)],
            requires_model: true,
            estimated_duration_ms: 5000,
        }
    }

    /// Unique id.
    pub fn id(&self) -> (r: &'static str)
        ensures
            r@ == self.info_spec().id,
    {
        "generate_regex"
    }

    /// Display name.
    pub fn display_name(&self) -> (r: &'static str)
        ensures
            r@ == self.info_spec().display_name,
    {
        "生成正则表达式"
    }

    /// Display name in English.
    pub fn display_name_en(&self) -> (r: &'static str)
        ensures
            r@ == self.info_spec().display_name_en,
    {
        "Generate Regex"
    }

    /// Description.
    pub fn description(&self) -> (r: &'static str)
        ensures
            r@ == self.info_spec().description,
    {
        "使用 AI 根据示例文本生成匹配的正则表达式"
    }

    /// Description in English.
    pub fn description_en(&self) -> (r: &'static str)
        ensures
            r@ == self.info_spec().description_en,
    {
        "Generate a matching regex from sample text using AI"
    }

    /// The content types this action handles.
    pub fn supported_types(&self) -> (r: Vec<ContentType>)
        ensures
            kinds_of(r@) == self.info_spec().supported_types,
    {
        let mut v: Vec<ContentType> = Vec::new();
        v.push(ContentType::PlainText);
        v.push(ContentType::Code("".to_owned()));
        assert(kinds_of(v@) =~= self.info_spec().supported_types);
        v
    }

    /// Whether this action needs an inference backend.
    pub fn requires_model(&self) -> (r: bool)
        ensures
            r == self.info_spec().requires_model,
    {
        true
    }

    /// Expected duration, in milliseconds.
    pub fn estimated_duration_ms(&self) -> (r: u64)
        ensures
            r == self.info_spec().estimated_duration_ms,
    {
        5000
    }

    /// What the registry keeps of this action.
    pub fn info(&self) -> (r: ActionInfo)
        ensures
            r@ == self.info_spec(),
    {
        ActionInfo {
            id: self.id().to_owned(),
            display_name: self.display_name().to_owned(),
            display_name_en: self.display_name_en().to_owned(),
            description: self.description().to_owned(),
            description_en: self.description_en().to_owned(),
            supported_types: self.supported_types(),
            requires_model: self.requires_model(),
            estimated_duration_ms: self.estimated_duration_ms(),
        }
    }
}


/// System prompt of the "PolishText" action.
pub const POLISH_TEXT_PROMPT: &'static str = "你是一位专业的文字编辑。请润色以下文本，使其更加流畅、专业、易读。\n\
                         要求：\n\
                         1. 保持原文含义不变\n\
                         2. 修正语法和用词错误\n\
                         3. 提升表达的流畅度和专业性\n\
                         4. 只输出润色后的文本，不要添加解释";

impl PolishTextAction {
    /// The chat request this action makes for `input`.
    pub fn request(&self, input: &ActionInput) -> (r: ChatRequest)
        ensures
            chat_request_is(r, POLISH_TEXT_PROMPT@, input.content@, None, Some(TEMPERATURE_0_5), input.thinking),
    {
        system_and_user(POLISH_TEXT_PROMPT.to_owned(), input.content.clone(), None, Some(TEMPERATURE_0_5), input.thinking)
    }

    /// The action's output for the model's answer.
    pub fn output(&self, resp: ChatResponse) -> (r: ActionOutput)
        ensures
            r.result@ == resp.content@,
            r.result_type@ == "text"@,
    {
        ActionOutput { result: resp.content, result_type: "text".to_owned() }
    }
}

/// System prompt of the "FixGrammar" action.
pub const FIX_GRAMMAR_PROMPT: &'static str = "You are an English grammar expert. Fix all grammar errors in the text.\n\
                         Output format:\n\
                         **Corrected:**\n\
                         [corrected text]\n\n\
                         **Changes:**\n\
                         - [change 1]\n\
                         - [change 2]\n\
                         If there are no errors, say 'No grammar issues found.'";

impl FixGrammarAction {
    /// The chat request this action makes for `input`.
    pub fn request(&self, input: &ActionInput) -> (r: ChatRequest)
        ensures
            chat_request_is(r, FIX_GRAMMAR_PROMPT@, input.content@, Some(2048u32), Some(TEMPERATURE_0_2), input.thinking),
    {
        system_and_user(FIX_GRAMMAR_PROMPT.to_owned(), input.content.clone(), Some(2048u32), Some(TEMPERATURE_0_2), input.thinking)
    }

    /// The action's output for the model's answer.
    pub fn output(&self, resp: ChatResponse) -> (r: ActionOutput)
        ensures
            r.result@ == resp.content@,
            r.result_type@ == "markdown"@,
    {
        ActionOutput { result: resp.content, result_type: "markdown".to_owned() }
    }
}

/// System prompt of the "ExtractContacts" action.
pub const EXTRACT_CONTACTS_PROMPT: &'static str = "你是信息提取专家。请从文本中提取所有联系人信息。\n\
                         输出 JSON 数组格式：\n\
                         ```json\n\
                         [\n\
                           {\n\
                             \"name\": \"姓名（如有）\",\n\
                             \"phone\": \"电话（如有）\",\n\
                             \"email\": \"邮箱（如有）\",\n\
                             \"company\": \"公司（如有）\",\n\
                             \"title\": \"职位（如有）\"\n\
                           }\n\
                         ]\n\
                         ```\n\
                         如果没有找到联系人，返回空数组 []。只输出 JSON，不要解释。";

impl ExtractContactsAction {
    /// The chat request this action makes for `input`.
    pub fn request(&self, input: &ActionInput) -> (r: ChatRequest)
        ensures
            chat_request_is(r, EXTRACT_CONTACTS_PROMPT@, input.content@, Some(2048u32), Some(TEMPERATURE_0_1), input.thinking),
    {
        system_and_user(EXTRACT_CONTACTS_PROMPT.to_owned(), input.content.clone(), Some(2048u32), Some(TEMPERATURE_0_1), input.thinking)
    }

    /// The action's output for the model's answer.
    pub fn output(&self, resp: ChatResponse) -> (r: ActionOutput)
        ensures
            r.result@ == resp.content@,
            r.result_type@ == "json"@,
    {
        ActionOutput { result: resp.content, result_type: "json".to_owned() }
    }
}

/// System prompt of the "GenerateRegex" action.
pub const GENERATE_REGEX_PROMPT: &'static str = "你是正则表达式专家。根据用户提供的文本示例，生成能匹配这些文本的正则表达式。\n\
                         输出格式：\n\
                         **正则表达式：**\n\
                         `regex_pattern`\n\n\
                         **说明：**\n\
                         - 简要解释各部分含义\n\n\
                         **测试：**\n\
                         - 列出匹配结果";

impl GenerateRegexAction {
    /// The chat request this action makes for `input`.
    pub fn request(&self, input: &ActionInput) -> (r: ChatRequest)
        ensures
            chat_request_is(r, GENERATE_REGEX_PROMPT@, input.content@, Some(1024u32), Some(TEMPERATURE_0_2), input.thinking),
    {
        system_and_user(GENERATE_REGEX_PROMPT.to_owned(), input.content.clone(), Some(1024u32), Some(TEMPERATURE_0_2), input.thinking)
    }

    /// The action's output for the model's answer.
    pub fn output(&self, resp: ChatResponse) -> (r: ActionOutput)
        ensures
            r.result@ == resp.content@,
            r.result_type@ == "markdown"@,
    {
        ActionOutput { result: resp.content, result_type: "markdown".to_owned() }
    }
}

} // verus!
