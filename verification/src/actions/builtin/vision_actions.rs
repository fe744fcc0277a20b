//! Model-backed reading of images: OCR, description, table extraction.
use vstd::prelude::*;
use crate::actions::traits::{kinds_of, ActionInfo, InfoView};
use crate::classifier::{ContentKind, ContentType};
use crate::actions::traits::ActionOutput;
use crate::encoding::{data_url, data_url_of};
use crate::model::backend::{
    ChatResponse, ImageUrlDetail, VisionContentPart, VisionMessage, VisionRequest, TEMPERATURE_0_1,
    TEMPERATURE_0_2, TEMPERATURE_0_5,
};

verus! {

/// The "Image OCR" action.
pub struct ImageOcrAction;

impl ImageOcrAction {
    /// What the registry knows of this action.
    pub open spec fn info_spec(&self) -> InfoView {
        InfoView {
            id: "image_ocr"@,
            display_name: "图片文字提取 (OCR)"@,
            display_name_en: "Image OCR"@,
            description: "识别图片中的文字内容"@,
            description_en: "Extract text from image using vision model"@,
            supported_types: seq![ContentKind::Image],
            requires_model: true,
            estimated_duration_ms: 10000,
        }
    }

    /// Unique id.
    pub fn id(&self) -> (r: &'static str)
        ensures
            r@ == self.info_spec().id,
    {
        "image_ocr"
    }

    /// Display name.
    pub fn display_name(&self) -> (r: &'static str)
        ensures
            r@ == self.info_spec().display_name,
    {
        "图片文字提取 (OCR)"
    }

    /// Display name in English.
    pub fn display_name_en(&self) -> (r: &'static str)
        ensures
            r@ == self.info_spec().display_name_en,
    {
        "Image OCR"
    }

    /// Description.
    pub fn description(&self) -> (r: &'static str)
        ensures
            r@ == self.info_spec().description,
    {
        "识别图片中的文字内容"
    }

    /// Description in English.
    pub fn description_en(&self) -> (r: &'static str)
        ensures
            r@ == self.info_spec().description_en,
    {
        "Extract text from image using vision model"
    }

    /// The content types this action handles.
    pub fn supported_types(&self) -> (r: Vec<ContentType>)
        ensures
            kinds_of(r@) == self.info_spec().supported_types,
    {
        let mut v: Vec<ContentType> = Vec::new();
        v.push(ContentType::Image);
        assert(kinds_of(v@) =~= self.info_spec().supported_types);
        v
    }

    /// Whether this action needs an inference backend.
    pub fn requires_model(&self) -> (r: bool)
        ensures
            r == self.info_spec().requires_model,
    {
        true
    }

    /// Expected duration, in milliseconds.
    pub fn estimated_duration_ms(&self) -> (r: u64)
        ensures
            r == self.info_spec().estimated_duration_ms,
    {
        10000
    }

    /// What the registry keeps of this action.
    pub fn info(&self) -> (r: ActionInfo)
        ensures
            r@ == self.info_spec(),
    {
        ActionInfo {
            id: self.id().to_owned(),
            display_name: self.display_name().to_owned(),
            display_name_en: self.display_name_en().to_owned(),
            description: self.description().to_owned(),
            description_en: self.description_en().to_owned(),
            supported_types: self.supported_types(),
            requires_model: self.requires_model(),
            estimated_duration_ms: self.estimated_duration_ms(),
        }
    }
}

/// The "Describe Image" action.
pub struct ImageDescribeAction;

impl ImageDescribeAction {
    /// What the registry knows of this action.
    pub open spec fn info_spec(&self) -> InfoView {
        InfoView {
            id: "image_describe"@,
            display_name: "图片描述"@,
            display_name_en: "Describe Image"@,
            description: "使用 AI 描述图片内容"@,
            description_en: "Describe image content using vision model"@,
            supported_types: seq![ContentKind::Image],
            requires_model: true,
            estimated_duration_ms: 10000,
        }
    }

    /// Unique id.
    pub fn id(&self) -> (r: &'static str)
        ensures
            r@ == self.info_spec().id,
    {
        "image_describe"
    }

    /// Display name.
    pub fn display_name(&self) -> (r: &'static str)
        ensures
            r@ == self.info_spec().display_name,
    {
        "图片描述"
    }

    /// Display name in English.
    pub fn display_name_en(&self) -> (r: &'static str)
        ensures
            r@ == self.info_spec().display_name_en,
    {
        "Describe Image"
    }

    /// Description.
    pub fn description(&self) -> (r: &'static str)
        ensures
            r@ == self.info_spec().description,
    {
        "使用 AI 描述图片内容"
    }

    /// Description in English.
    pub fn description_en(&self) -> (r: &'static str)
        ensures
            r@ == self.info_spec().description_en,
    {
        "Describe image content using vision model"
    }

    /// The content types this action handles.
    pub fn supported_types(&self) -> (r: Vec<ContentType>)
        ensures
            kinds_of(r@) == self.info_spec().supported_types,
    {
        let mut v: Vec<ContentType> = Vec::new();
        v.push(ContentType::Image);
        assert(kinds_of(v@) =~= self.info_spec().supported_types);
        v
    }

    /// Whether this action needs an inference backend.
    pub fn requires_model(&self) -> (r: bool)
        ensures
            r == self.info_spec().requires_model,
    {
        true
    }

    /// Expected duration, in milliseconds.
    pub fn estimated_duration_ms(&self) -> (r: u64)
        ensures
            r == self.info_spec().estimated_duration_ms,
    {
        10000
    }

    /// What the registry keeps of this action.
    pub fn info(&self) -> (r: ActionInfo)
        ensures
            r@ == self.info_spec(),
    {
        ActionInfo {
            id: self.id().to_owned(),
            display_name: self.display_name().to_owned(),
            display_name_en: self.display_name_en().to_owned(),
            description: self.description().to_owned(),
            description_en: self.description_en().to_owned(),
            supported_types: self.supported_types(),
            requires_model: self.requires_model(),
            estimated_duration_ms: self.estimated_duration_ms(),
        }
    }
}

/// The "Extract Table from Image" action.
pub struct ImageTableExtractAction;

impl ImageTableExtractAction {
    /// What the registry knows of this action.
    pub open spec fn info_spec(&self) -> InfoView {
        InfoView {
            id: "image_table_extract"@,
            display_name: "截图表格提取"@,
            display_name_en: "Extract Table from Image"@,
            description: "从截图中提取表格数据为 Markdown 格式"@,
            description_en: "Extract table data from screenshot as Markdown"@,
            supported_types: seq![ContentKind::Image],
            requires_model: true,
            estimated_duration_ms: 15000,
        }
    }

    /// Unique id.
    pub fn id(&self) -> (r: &'static str)
        ensures
            r@ == self.info_spec().id,
    {
        "image_table_extract"
    }

    /// Display name.
    pub fn display_name(&self) -> (r: &'static str)
        ensures
            r@ == self.info_spec().display_name,
    {
        "截图表格提取"
    }

    /// Display name in English.
    pub fn display_name_en(&self) -> (r: &'static str)
        ensures
            r@ == self.info_spec().display_name_en,
    {
        "Extract Table from Image"
    }

    /// Description.
    pub fn description(&self) -> (r: &'static str)
        ensures
            r@ == self.info_spec().description,
    {
        "从截图中提取表格数据为 Markdown 格式"
    }

    /// Description in English.
    pub fn description_en(&self) -> (r: &'static str)
        ensures
            r@ == self.info_spec().description_en,
    {
        "Extract table data from screenshot as Markdown"
    }

    /// The content types this action handles.
    pub fn supported_types(&self) -> (r: Vec<ContentType>)
        ensures
            kinds_of(r@) == self.info_spec().supported_types,
    {
        let mut v: Vec<ContentType> = Vec::new();
        v.push(ContentType::Image);
        assert(kinds_of(v@) =~= self.info_spec().supported_types);
        v
    }

    /// Whether this action needs an inference backend.
    pub fn requires_model(&self) -> (r: bool)
        ensures
            r == self.info_spec().requires_model,
    {
        true
    }

    /// Expected duration, in milliseconds.
    pub fn estimated_duration_ms(&self) -> (r: u64)
        ensures
            r == self.info_spec().estimated_duration_ms,
    {
        15000
    }

    /// What the registry keeps of this action.
    pub fn info(&self) -> (r: ActionInfo)
        ensures
            r@ == self.info_spec(),
    {
        ActionInfo {
            id: self.id().to_owned(),
            display_name: self.display_name().to_owned(),
            display_name_en: self.display_name_en().to_owned(),
            description: self.description().to_owned(),
            description_en: self.description_en().to_owned(),
            supported_types: self.supported_types(),
            requires_model: self.requires_model(),
            estimated_duration_ms: self.estimated_duration_ms(),
        }
    }
}


/// The detail level asked for is "auto".
pub open spec fn detail_is_auto(d: Option<String>) -> bool {
    match d {
        Some(x) => x@ == "auto"@,
        None => false,
    }
}

/// The system message and the user message (the image, then the question) of a vision request.
pub open spec fn vision_messages_are(
    m: Seq<VisionMessage>,
    system: Seq<char>,
    image_url: Seq<char>,
    user_text: Seq<char>,
) -> bool {
    &&& m.len() == 2
    &&& m[0].role@ == "system"@
    &&& m[0].content@.len() == 1
    &&& m[0].content@[0] matches VisionContentPart::Text { text } && text@ == system
    &&& m[1].role@ == "user"@
    &&& m[1].content@.len() == 2
    &&& m[1].content@[0] matches VisionContentPart::ImageUrl { image_url: d } && d.url@ == image_url
        && detail_is_auto(d.detail)
    &&& m[1].content@[1] matches VisionContentPart::Text { text } && text@ == user_text
}

/// The messages of a vision request: a system prompt, then the image with automatic detail
/// level and the user's question.
pub fn build_vision_messages(system_prompt: &str, image_data_url: &str, user_text: &str) -> (r: Vec<
    VisionMessage,
>)
    ensures
        vision_messages_are(r@, system_prompt@, image_data_url@, user_text@),
{
    let mut system_parts: Vec<VisionContentPart> = Vec::new();
    system_parts.push(VisionContentPart::Text { text: system_prompt.to_owned() });
    let mut user_parts: Vec<VisionContentPart> = Vec::new();
    user_parts.push(
        VisionContentPart::ImageUrl {
            image_url: ImageUrlDetail {
                url: image_data_url.to_owned(),
                detail: Some("auto".to_owned()),
            },
        },
    );
    user_parts.push(VisionContentPart::Text { text: user_text.to_owned() });
    let mut messages: Vec<VisionMessage> = Vec::new();
    messages.push(VisionMessage { role: "system".to_owned(), content: system_parts });
    messages.push(VisionMessage { role: "user".to_owned(), content: user_parts });
    messages
}

/// The data URL under which an image file's bytes are sent: PNG, base64-encoded.
pub fn image_data_url(data: &[u8]) -> (r: String)
    ensures
        r@ == data_url("image/png"@, data@),
{
    data_url_of("image/png", data)
}

/// System prompt of the "ImageOcr" action.
pub const IMAGE_OCR_PROMPT: &'static str = "你是一个精确的 OCR 引擎。请提取图片中的所有文字内容，保持原始排版格式。只输出提取到的文字，不要添加任何解释。";

/// The question that the "ImageOcr" action asks about the image.
pub const IMAGE_OCR_QUESTION: &'static str = "请提取这张图片中的所有文字。";

impl ImageOcrAction {
    /// The vision request for an image, given as a data URL.
    pub fn request(&self, image_data_url: &str) -> (r: VisionRequest)
        ensures
            vision_messages_are(r.messages@, IMAGE_OCR_PROMPT@, image_data_url@, IMAGE_OCR_QUESTION@),
            r.max_tokens is None,
            r.temperature_bits == Some(TEMPERATURE_0_1),
    {
        VisionRequest {
            messages: build_vision_messages(IMAGE_OCR_PROMPT, image_data_url, IMAGE_OCR_QUESTION),
            max_tokens: None,
            temperature_bits: Some(TEMPERATURE_0_1),
        }
    }

    /// The action's output for the model's answer.
    pub fn output(&self, resp: ChatResponse) -> (r: ActionOutput)
        ensures
            r.result@ == resp.content@,
            r.result_type@ == "text"@,
    {
        ActionOutput { result: resp.content, result_type: "text".to_owned() }
    }
}

/// System prompt of the "ImageDescribe" action.
pub const IMAGE_DESCRIBE_PROMPT: &'static str = "你是一个图片描述助手。请详细描述图片中的内容，包括主要对象、场景、颜色、布局等。";

/// The question that the "ImageDescribe" action asks about the image.
pub const IMAGE_DESCRIBE_QUESTION: &'static str = "请详细描述这张图片的内容。";

impl ImageDescribeAction {
    /// The vision request for an image, given as a data URL.
    pub fn request(&self, image_data_url: &str) -> (r: VisionRequest)
        ensures
            vision_messages_are(r.messages@, IMAGE_DESCRIBE_PROMPT@, image_data_url@, IMAGE_DESCRIBE_QUESTION@),
            r.max_tokens is None,
            r.temperature_bits == Some(TEMPERATURE_0_5),
    {
        VisionRequest {
            messages: build_vision_messages(IMAGE_DESCRIBE_PROMPT, image_data_url, IMAGE_DESCRIBE_QUESTION),
            max_tokens: None,
            temperature_bits: Some(TEMPERATURE_0_5),
        }
    }

    /// The action's output for the model's answer.
    pub fn output(&self, resp: ChatResponse) -> (r: ActionOutput)
        ensures
            r.result@ == resp.content@,
            r.result_type@ == "text"@,
    {
        ActionOutput { result: resp.content, result_type: "text".to_owned() }
    }
}

/// System prompt of the "ImageTableExtract" action.
pub const IMAGE_TABLE_EXTRACT_PROMPT: &'static str = "你是一个表格提取专家。请从图片中识别表格数据，并输出为 Markdown 表格格式。如果图片中没有表格，请说明。只输出 Markdown 表格，不要添加解释。";

/// The question that the "ImageTableExtract" action asks about the image.
pub const IMAGE_TABLE_EXTRACT_QUESTION: &'static str = "请提取这张图片中的表格数据。";

impl ImageTableExtractAction {
    /// The vision request for an image, given as a data URL.
    pub fn request(&self, image_data_url: &str) -> (r: VisionRequest)
        ensures
            vision_messages_are(r.messages@, IMAGE_TABLE_EXTRACT_PROMPT@, image_data_url@, IMAGE_TABLE_EXTRACT_QUESTION@),
            r.max_tokens is None,
            r.temperature_bits == Some(TEMPERATURE_0_2),
    {
        VisionRequest {
            messages: build_vision_messages(IMAGE_TABLE_EXTRACT_PROMPT, image_data_url, IMAGE_TABLE_EXTRACT_QUESTION),
            max_tokens: None,
            temperature_bits: Some(TEMPERATURE_0_2),
        }
    }

    /// The action's output for the model's answer.
    pub fn output(&self, resp: ChatResponse) -> (r: ActionOutput)
        ensures
            r.result@ == resp.content@,
            r.result_type@ == "markdown"@,
    {
        ActionOutput { result: resp.content, result_type: "markdown".to_owned() }
    }
}

} // verus!
