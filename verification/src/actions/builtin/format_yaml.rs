//! YAML formatting and conversion to JSON.
use vstd::prelude::*;
use crate::actions::traits::{kinds_of, ActionInfo, InfoView};
use crate::classifier::{ContentKind, ContentType};
use crate::actions::traits::{ActionInput, ActionOutput};
use crate::actions::builtin::format_json::{conversion_output, conversion_result, output_matches};
use crate::foreign::{yaml_document_parses, reformat_yaml, yaml_pretty_outcome, yaml_to_json, yaml_to_json_outcome};

verus! {

/// The "YAML → JSON" action.
pub struct YamlToJsonAction;

impl YamlToJsonAction {
    /// What the registry knows of this action.
    pub open spec fn info_spec(&self) -> InfoView {
        InfoView {
            id: "yaml_to_json"@,
            display_name: "YAML → JSON"@,
            display_name_en: "YAML → JSON"@,
            description: "将 YAML 转换为 JSON 格式"@,
            description_en: "Convert YAML to JSON format"@,
            supported_types: seq![ContentKind::Yaml],
            requires_model: false,
            estimated_duration_ms: 10,
        }
    }

    /// Unique id.
    pub fn id(&self) -> (r: &'static str)
        ensures
            r@ == self.info_spec().id,
    {
        "yaml_to_json"
    }

    /// Display name.
    pub fn display_name(&self) -> (r: &'static str)
        ensures
            r@ == self.info_spec().display_name,
    {
        "YAML → JSON"
    }

    /// Display name in English.
    pub fn display_name_en(&self) -> (r: &'static str)
        ensures
            r@ == self.info_spec().display_name_en,
    {
        "YAML → JSON"
    }

    /// Description.
    pub fn description(&self) -> (r: &'static str)
        ensures
            r@ == self.info_spec().description,
    {
        "将 YAML 转换为 JSON 格式"
    }

    /// Description in English.
    pub fn description_en(&self) -> (r: &'static str)
        ensures
            r@ == self.info_spec().description_en,
    {
        "Convert YAML to JSON format"
    }

    /// The content types this action handles.
    pub fn supported_types(&self) -> (r: Vec<ContentType>)
        ensures
            kinds_of(r@) == self.info_spec().supported_types,
    {
        let mut v: Vec<ContentType> = Vec::new();
        v.push(ContentType::Yaml);
        assert(kinds_of(v@) =~= self.info_spec().supported_types);
        v
    }

    /// Whether this action needs an inference backend.
    pub fn requires_model(&self) -> (r: bool)
        ensures
            r == self.info_spec().requires_model,
    {
        false
    }

    /// Expected duration, in milliseconds.
    pub fn estimated_duration_ms(&self) -> (r: u64)
        ensures
            r == self.info_spec().estimated_duration_ms,
    {
        10
    }

    /// What the registry keeps of this action.
    pub fn info(&self) -> (r: ActionInfo)
        ensures
            r@ == self.info_spec(),
    {
        ActionInfo {
            id: self.id().to_owned(),
            display_name: self.display_name().to_owned(),
            display_name_en: self.display_name_en().to_owned(),
            description: self.description().to_owned(),
            description_en: self.description_en().to_owned(),
            supported_types: self.supported_types(),
            requires_model: self.requires_model(),
            estimated_duration_ms: self.estimated_duration_ms(),
        }
    }
}

/// The "Format YAML" action.
pub struct YamlFormatAction;

impl YamlFormatAction {
    /// What the registry knows of this action.
    pub open spec fn info_spec(&self) -> InfoView {
        InfoView {
            id: "yaml_format"@,
            display_name: "格式化 YAML"@,
            display_name_en: "Format YAML"@,
            description: "美化 YAML 数据"@,
            description_en: "Pretty-print YAML data"@,
            supported_types: seq![ContentKind::Yaml],
            requires_model: false,
            estimated_duration_ms: 10,
        }
    }

    /// Unique id.
    pub fn id(&self) -> (r: &'static str)
        ensures
            r@ == self.info_spec().id,
    {
        "yaml_format"
    }

    /// Display name.
    pub fn display_name(&self) -> (r: &'static str)
        ensures
            r@ == self.info_spec().display_name,
    {
        "格式化 YAML"
    }

    /// Display name in English.
    pub fn display_name_en(&self) -> (r: &'static str)
        ensures
            r@ == self.info_spec().display_name_en,
    {
        "Format YAML"
    }

    /// Description.
    pub fn description(&self) -> (r: &'static str)
        ensures
            r@ == self.info_spec().description,
    {
        "美化 YAML 数据"
    }

    /// Description in English.
    pub fn description_en(&self) -> (r: &'static str)
        ensures
            r@ == self.info_spec().description_en,
    {
        "Pretty-print YAML data"
    }

    /// The content types this action handles.
    pub fn supported_types(&self) -> (r: Vec<ContentType>)
        ensures
            kinds_of(r@) == self.info_spec().supported_types,
    {
        let mut v: Vec<ContentType> = Vec::new();
        v.push(ContentType::Yaml);
        assert(kinds_of(v@) =~= self.info_spec().supported_types);
        v
    }

    /// Whether this action needs an inference backend.
    pub fn requires_model(&self) -> (r: bool)
        ensures
            r == self.info_spec().requires_model,
    {
        false
    }

    /// Expected duration, in milliseconds.
    pub fn estimated_duration_ms(&self) -> (r: u64)
        ensures
            r == self.info_spec().estimated_duration_ms,
    {
        10
    }

    /// What the registry keeps of this action.
    pub fn info(&self) -> (r: ActionInfo)
        ensures
            r@ == self.info_spec(),
    {
        ActionInfo {
            id: self.id().to_owned(),
            display_name: self.display_name().to_owned(),
            display_name_en: self.display_name_en().to_owned(),
            description: self.description().to_owned(),
            description_en: self.description_en().to_owned(),
            supported_types: self.supported_types(),
            requires_model: self.requires_model(),
            estimated_duration_ms: self.estimated_duration_ms(),
        }
    }
}


impl YamlToJsonAction {
    /// Converts YAML content to pretty-printed JSON.
    pub fn execute(&self, input: ActionInput) -> (r: Result<ActionOutput, String>)
        ensures
            output_matches(
                r,
                conversion_result(
                    yaml_to_json_outcome(input.content@),
                    "YAML 解析失败: "@,
                    "JSON 转换失败: "@,
                ),
            ),
            !yaml_document_parses(input.content@) ==> r is Err,
    {
        conversion_output(yaml_to_json(input.content.as_str()), "YAML 解析失败: ", "JSON 转换失败: ")
    }
}

impl YamlFormatAction {
    /// Re-emits YAML content in canonical form.
    pub fn execute(&self, input: ActionInput) -> (r: Result<ActionOutput, String>)
        ensures
            output_matches(
                r,
                conversion_result(
                    yaml_pretty_outcome(input.content@),
                    "YAML 解析失败: "@,
                    "YAML 格式化失败: "@,
                ),
            ),
            !yaml_document_parses(input.content@) ==> r is Err,
    {
        conversion_output(reformat_yaml(input.content.as_str()), "YAML 解析失败: ", "YAML 格式化失败: ")
    }
}

} // verus!
