//! What the plugin commands show of an installed plugin.
use vstd::prelude::*;
use crate::actions::plugin::schema::PluginConfig;
use crate::text::{texts, copy_texts};

verus! {

/// An installed plugin, as listed.
#[derive(Debug, Clone)]
pub struct PluginInfo {
    pub id: String,
    pub name: String,
    pub description: String,
    pub version: String,
    pub content_types: Vec<String>,
}

/// The listing of an installed plugin file.
pub fn plugin_info(config: &PluginConfig) -> (r: PluginInfo)
    ensures
        r.id@ == config@.plugin.id,
        r.name@ == config@.plugin.name,
        r.description@ == config@.plugin.description,
        r.version@ == config@.plugin.version,
        texts(r.content_types@) == config@.trigger.content_types,
{
    PluginInfo {
        id: config.plugin.id.clone(),
        name: config.plugin.name.clone(),
        description: config.plugin.description.clone(),
        version: config.plugin.version.clone(),
        content_types: copy_texts(&config.trigger.content_types),
    }
}

} // verus!
