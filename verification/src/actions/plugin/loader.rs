//! Accepting a plugin file once it has been read and parsed.
use vstd::prelude::*;
use crate::actions::plugin::schema::PluginConfig;
use crate::actions::plugin::plugin_action::PluginAction;
use crate::text::chars_of;

verus! {

/// The action of a parsed plugin file read from `source_path`: refused with "插件 ID 不能为空"
/// when its id is empty, else with "system_prompt 不能为空" when its system prompt is empty.
pub fn validate_plugin(config: PluginConfig, source_path: String) -> (r: Result<PluginAction, String>)
    ensures
        match r {
            Ok(a) => config@.plugin.id.len() > 0 && config@.action.system_prompt.len() > 0
                && a.config@ == config@ && a.source_path@ == source_path@,
            Err(e) => if config@.plugin.id.len() == 0 {
                e@ == "插件 ID 不能为空"@
            } else {
                config@.action.system_prompt.len() == 0 && e@ == "system_prompt 不能为空"@
            },
        },
{
    if chars_of(config.plugin.id.as_str()).len() == 0 {
        return Err("插件 ID 不能为空".to_owned());
    }
    if chars_of(config.action.system_prompt.as_str()).len() == 0 {
        return Err("system_prompt 不能为空".to_owned());
    }
    Ok(PluginAction::new(config, source_path))
}

} // verus!
