//! The plugin file format: metadata, the content types that trigger a plugin, and the
//! prompt it sends. The sampling temperature is kept as the bits of an `f32`.
use vstd::prelude::*;
use crate::text::{opt_text, copy_opt_text, texts, copy_texts};

verus! {

/// Plugin metadata.
#[derive(Debug, Clone)]
pub struct PluginMeta {
    /// Unique id, under which the action is registered.
    pub id: String,
    /// Display name.
    pub name: String,
    pub description: String,
    pub version: String,
    pub author: Option<String>,
}

/// The mathematical value of a `PluginMeta`.
pub struct PluginMetaView {
    pub id: Seq<char>,
    pub name: Seq<char>,
    pub description: Seq<char>,
    pub version: Seq<char>,
    pub author: Option<Seq<char>>,
}

impl View for PluginMeta {
    type V = PluginMetaView;

    open spec fn view(&self) -> PluginMetaView {
        PluginMetaView {
            id: self.id@,
            name: self.name@,
            description: self.description@,
            version: self.version@,
            author: opt_text(self.author),
        }
    }
}

impl PluginMeta {
    /// A copy of this value.
    pub fn duplicate(&self) -> (r: PluginMeta)
        ensures
            r@ == self@,
    {
        let r = PluginMeta {
            id: self.id.clone(),
            name: self.name.clone(),
            description: self.description.clone(),
            version: self.version.clone(),
            author: copy_opt_text(&self.author),
        };
        r
    }
}

/// When a plugin is offered.
#[derive(Debug, Clone)]
pub struct PluginTrigger {
    /// Content type names, e.g. "PlainText", "Code".
    pub content_types: Vec<String>,
}

/// The mathematical value of a `PluginTrigger`.
pub struct PluginTriggerView {
    pub content_types: Seq<Seq<char>>,
}

impl View for PluginTrigger {
    type V = PluginTriggerView;

    open spec fn view(&self) -> PluginTriggerView {
        PluginTriggerView {
            content_types: texts(self.content_types@),
        }
    }
}

impl PluginTrigger {
    /// A copy of this value.
    pub fn duplicate(&self) -> (r: PluginTrigger)
        ensures
            r@ == self@,
    {
        let r = PluginTrigger {
            content_types: copy_texts(&self.content_types),
        };
        r
    }
}

/// What a plugin asks the model.
#[derive(Debug, Clone)]
pub struct PluginActionDef {
    /// System prompt template; `{{content}}` stands for the content.
    pub system_prompt: String,
    /// User prompt template; the content itself when absent.
    pub user_prompt: Option<String>,
    /// "text", "markdown", "json" or "code".
    pub output_type: String,
    pub max_tokens: Option<u32>,
    pub temperature_bits: Option<u32>,
}

/// The mathematical value of a `PluginActionDef`.
pub struct PluginActionDefView {
    pub system_prompt: Seq<char>,
    pub user_prompt: Option<Seq<char>>,
    pub output_type: Seq<char>,
    pub max_tokens: Option<u32>,
    pub temperature_bits: Option<u32>,
}

impl View for PluginActionDef {
    type V = PluginActionDefView;

    open spec fn view(&self) -> PluginActionDefView {
        PluginActionDefView {
            system_prompt: self.system_prompt@,
            user_prompt: opt_text(self.user_prompt),
            output_type: self.output_type@,
            max_tokens: self.max_tokens,
            temperature_bits: self.temperature_bits,
        }
    }
}

impl PluginActionDef {
    /// A copy of this value.
    pub fn duplicate(&self) -> (r: PluginActionDef)
        ensures
            r@ == self@,
    {
        let r = PluginActionDef {
            system_prompt: self.system_prompt.clone(),
            user_prompt: copy_opt_text(&self.user_prompt),
            output_type: self.output_type.clone(),
            max_tokens: self.max_tokens,
            temperature_bits: self.temperature_bits,
        };
        r
    }
}

/// A plugin file.
#[derive(Debug, Clone)]
pub struct PluginConfig {
    pub plugin: PluginMeta,
    pub trigger: PluginTrigger,
    pub action: PluginActionDef,
}

/// The mathematical value of a `PluginConfig`.
pub struct PluginConfigView {
    pub plugin: PluginMetaView,
    pub trigger: PluginTriggerView,
    pub action: PluginActionDefView,
}

impl View for PluginConfig {
    type V = PluginConfigView;

    open spec fn view(&self) -> PluginConfigView {
        PluginConfigView {
            plugin: self.plugin@,
            trigger: self.trigger@,
            action: self.action@,
        }
    }
}

impl PluginConfig {
    /// A copy of this value.
    pub fn duplicate(&self) -> (r: PluginConfig)
        ensures
            r@ == self@,
    {
        let r = PluginConfig {
            plugin: self.plugin.duplicate(),
            trigger: self.trigger.duplicate(),
            action: self.action.duplicate(),
        };
        r
    }
}

/// The output type of a plugin that names none.
pub fn default_output_type() -> (r: String)
    ensures
        r@ == "text"@,
{
    "text".to_owned()
}

} // verus!
