//! JSON formatting and conversion to YAML.
use vstd::prelude::*;
use crate::actions::traits::{kinds_of, ActionInfo, InfoView};
use crate::classifier::{ContentKind, ContentType};
use crate::actions::traits::{ActionInput, ActionOutput};
use crate::foreign::{json_document_parses, json_pretty_outcome, json_to_yaml, json_to_yaml_outcome, reformat_json, Conversion, ConversionView};

verus! {

/// The "Format JSON" action.
pub struct JsonFormatAction;

impl JsonFormatAction {
    /// What the registry knows of this action.
    pub open spec fn info_spec(&self) -> InfoView {
        InfoView {
            id: "json_format"@,
            display_name: "格式化 JSON"@,
            display_name_en: "Format JSON"@,
            description: "美化或压缩 JSON 数据"@,
            description_en: "Pretty-print or compact JSON data"@,
            supported_types: seq![ContentKind::Json],
            requires_model: false,
            estimated_duration_ms: 10,
        }
    }

    /// Unique id.
    pub fn id(&self) -> (r: &'static str)
        ensures
            r@ == self.info_spec().id,
    {
        "json_format"
    }

    /// Display name.
    pub fn display_name(&self) -> (r: &'static str)
        ensures
            r@ == self.info_spec().display_name,
    {
        "格式化 JSON"
    }

    /// Display name in English.
    pub fn display_name_en(&self) -> (r: &'static str)
        ensures
            r@ == self.info_spec().display_name_en,
    {
        "Format JSON"
    }

    /// Description.
    pub fn description(&self) -> (r: &'static str)
        ensures
            r@ == self.info_spec().description,
    {
        "美化或压缩 JSON 数据"
    }

    /// Description in English.
    pub fn description_en(&self) -> (r: &'static str)
        ensures
            r@ == self.info_spec().description_en,
    {
        "Pretty-print or compact JSON data"
    }

    /// The content types this action handles.
    pub fn supported_types(&self) -> (r: Vec<ContentType>)
        ensures
            kinds_of(r@) == self.info_spec().supported_types,
    {
        let mut v: Vec<ContentType> = Vec::new();
        v.push(ContentType::Json);
        assert(kinds_of(v@) =~= self.info_spec().supported_types);
        v
    }

    /// Whether this action needs an inference backend.
    pub fn requires_model(&self) -> (r: bool)
        ensures
            r == self.info_spec().requires_model,
    {
        false
    }

    /// Expected duration, in milliseconds.
    pub fn estimated_duration_ms(&self) -> (r: u64)
        ensures
            r == self.info_spec().estimated_duration_ms,
    {
        10
    }

    /// What the registry keeps of this action.
    pub fn info(&self) -> (r: ActionInfo)
        ensures
            r@ == self.info_spec(),
    {
        ActionInfo {
            id: self.id().to_owned(),
            display_name: self.display_name().to_owned(),
            display_name_en: self.display_name_en().to_owned(),
            description: self.description().to_owned(),
            description_en: self.description_en().to_owned(),
            supported_types: self.supported_types(),
            requires_model: self.requires_model(),
            estimated_duration_ms: self.estimated_duration_ms(),
        }
    }
}

/// The "JSON → YAML" action.
pub struct JsonToYamlAction;

impl JsonToYamlAction {
    /// What the registry knows of this action.
    pub open spec fn info_spec(&self) -> InfoView {
        InfoView {
            id: "json_to_yaml"@,
            display_name: "JSON → YAML"@,
            display_name_en: "JSON → YAML"@,
            description: "将 JSON 转换为 YAML 格式"@,
            description_en: "Convert JSON to YAML format"@,
            supported_types: seq![ContentKind::Json],
            requires_model: false,
            estimated_duration_ms: 10,
        }
    }

    /// Unique id.
    pub fn id(&self) -> (r: &'static str)
        ensures
            r@ == self.info_spec().id,
    {
        "json_to_yaml"
    }

    /// Display name.
    pub fn display_name(&self) -> (r: &'static str)
        ensures
            r@ == self.info_spec().display_name,
    {
        "JSON → YAML"
    }

    /// Display name in English.
    pub fn display_name_en(&self) -> (r: &'static str)
        ensures
            r@ == self.info_spec().display_name_en,
    {
        "JSON → YAML"
    }

    /// Description.
    pub fn description(&self) -> (r: &'static str)
        ensures
            r@ == self.info_spec().description,
    {
        "将 JSON 转换为 YAML 格式"
    }

    /// Description in English.
    pub fn description_en(&self) -> (r: &'static str)
        ensures
            r@ == self.info_spec().description_en,
    {
        "Convert JSON to YAML format"
    }

    /// The content types this action handles.
    pub fn supported_types(&self) -> (r: Vec<ContentType>)
        ensures
            kinds_of(r@) == self.info_spec().supported_types,
    {
        let mut v: Vec<ContentType> = Vec::new();
        v.push(ContentType::Json);
        assert(kinds_of(v@) =~= self.info_spec().supported_types);
        v
    }

    /// Whether this action needs an inference backend.
    pub fn requires_model(&self) -> (r: bool)
        ensures
            r == self.info_spec().requires_model,
    {
        false
    }

    /// Expected duration, in milliseconds.
    pub fn estimated_duration_ms(&self) -> (r: u64)
        ensures
            r == self.info_spec().estimated_duration_ms,
    {
        10
    }

    /// What the registry keeps of this action.
    pub fn info(&self) -> (r: ActionInfo)
        ensures
            r@ == self.info_spec(),
    {
        ActionInfo {
            id: self.id().to_owned(),
            display_name: self.display_name().to_owned(),
            display_name_en: self.display_name_en().to_owned(),
            description: self.description().to_owned(),
            description_en: self.description_en().to_owned(),
            supported_types: self.supported_types(),
            requires_model: self.requires_model(),
            estimated_duration_ms: self.estimated_duration_ms(),
        }
    }
}


/// The action's result for a conversion outcome: the converted text as code, or the reader's
/// or writer's message after the matching prefix.
pub open spec fn conversion_result(
    c: ConversionView,
    read_prefix: Seq<char>,
    write_prefix: Seq<char>,
) -> Result<Seq<char>, Seq<char>> {
    match c {
        ConversionView::Converted(t) => Ok(t),
        ConversionView::ReadFailed(m) => Err(read_prefix + m),
        ConversionView::WriteFailed(m) => Err(write_prefix + m),
    }
}

/// `r` is what `conversion_result` gives, the output typed as code.
pub open spec fn output_matches(r: Result<ActionOutput, String>, expected: Result<Seq<char>, Seq<char>>) -> bool {
    match expected {
        Ok(t) => (r matches Ok(o) && o.result@ == t && o.result_type@ == "code"@),
        Err(e) => (r matches Err(m) && m@ == e),
    }
}

/// Turns a conversion outcome into the action's result.
pub fn conversion_output(c: Conversion, read_prefix: &str, write_prefix: &str) -> (r: Result<
    ActionOutput,
    String,
>)
    ensures
        output_matches(r, conversion_result(c@, read_prefix@, write_prefix@)),
{
    match c {
        Conversion::Converted(t) => Ok(ActionOutput { result: t, result_type: "code".to_owned() }),
        Conversion::ReadFailed(m) => {
            let mut msg = read_prefix.to_owned();
            msg.append(m.as_str());
            Err(msg)
        },
        Conversion::WriteFailed(m) => {
            let mut msg = write_prefix.to_owned();
            msg.append(m.as_str());
            Err(msg)
        },
    }
}

impl JsonFormatAction {
    /// Pretty-prints JSON content.
    pub fn execute(&self, input: ActionInput) -> (r: Result<ActionOutput, String>)
        ensures
            output_matches(
                r,
                conversion_result(
                    json_pretty_outcome(input.content@),
                    "JSON 解析失败: "@,
                    "JSON 格式化失败: "@,
                ),
            ),
            (r is Ok) == json_document_parses(input.content@),
    {
        conversion_output(reformat_json(input.content.as_str()), "JSON 解析失败: ", "JSON 格式化失败: ")
    }
}

impl JsonToYamlAction {
    /// Converts JSON content to YAML.
    pub fn execute(&self, input: ActionInput) -> (r: Result<ActionOutput, String>)
        ensures
            output_matches(
                r,
                conversion_result(
                    json_to_yaml_outcome(input.content@),
                    "JSON 解析失败: "@,
                    "YAML 转换失败: "@,
                ),
            ),
            !json_document_parses(input.content@) ==> r is Err,
    {
        conversion_output(json_to_yaml(input.content.as_str()), "JSON 解析失败: ", "YAML 转换失败: ")
    }
}

} // verus!
