//! The action commands: the registry the application keeps, what it lists, and the events
//! and results that running an action produces. Running and awaiting is the caller's part.
use vstd::prelude::*;
use crate::actions::registry::{ActionRegistry, listed_descriptors, descriptor_views};
use crate::actions::traits::{ActionInfo, ActionDescriptor, InfoView, descriptor_of};
use crate::actions::registry::info_views;
use crate::actions::builtin::{register_builtin_actions, builtin_infos};
use crate::classifier::ContentType;
use crate::model::backend::{ChatRequest, StreamChunk, system_and_user, chat_request_is, TEMPERATURE_0_5};
use crate::text::{concat3, trim, trim_str, chars_of};

verus! {

/// The registry at start-up: the built-in actions, then the plugin actions.
pub fn initial_registry(plugins: Vec<ActionInfo>) -> (r: ActionRegistry)
    ensures
        r@.actions == builtin_infos() + info_views(plugins@),
        r@.plugin_ids == crate::actions::registry::ids_of(info_views(plugins@)).to_set(),
{
    let mut registry = ActionRegistry::new();
    register_builtin_actions(&mut registry);
    let ghost base = registry@.actions;
    assert(base == builtin_infos());
    let n = plugins.len();
    let mut rest = plugins;
    let ghost all = info_views(rest@);
    let mut taken: Vec<ActionInfo> = Vec::new();
    let mut i: usize = 0;
    while i < n
        invariant
            n == all.len(),
            i <= n,
            rest@.len() == n - i,
            info_views(rest@) == all.skip(i as int),
            registry@.actions == base + all.take(i as int),
            registry@.plugin_ids == crate::actions::registry::ids_of(all.take(i as int)).to_set(),
        decreases n - i,
    {
        let ghost before = rest@;
        let a = rest.remove(0);
        proof {
            assert(info_views(before)[0] == all.skip(i as int)[0]);
            assert(a@ == all[i as int]);
            assert(rest@ == before.subrange(1, before.len() as int));
            assert(all.take(i as int + 1) == all.take(i as int).push(a@));
            assert forall|k: int| 0 <= k < rest@.len() implies #[trigger] info_views(rest@)[k] == all.skip(i as int + 1)[k] by {
                assert(info_views(before)[k + 1] == all.skip(i as int)[k + 1]);
            }
            assert(info_views(rest@) =~= all.skip(i as int + 1));
            assert(crate::actions::registry::ids_of(all.take(i as int + 1)) =~= crate::actions::registry::ids_of(all.take(i as int)).push(a@.id));
            assert(crate::actions::registry::ids_of(all.take(i as int)).push(a@.id).to_set() =~= crate::actions::registry::ids_of(all.take(i as int)).to_set().insert(a@.id)) by {
                crate::actions::registry::ids_of(all.take(i as int)).lemma_push_to_set_commute(a@.id);
            }
        }
        registry.register_plugin(a);
        i = i + 1;
    }
    assert(all.take(n as int) == all);
    registry
}

/// Replace the plugin actions by `new_plugins`, returning how many there are.
pub fn reload_registry_plugins(registry: &mut ActionRegistry, new_plugins: Vec<ActionInfo>) -> (r: usize)
    ensures
        r == new_plugins@.len(),
        final(registry)@.actions == crate::actions::registry::non_plugin_actions(old(registry)@.actions, old(registry)@.plugin_ids)
            + info_views(new_plugins@),
        final(registry)@.plugin_ids == crate::actions::registry::ids_of(info_views(new_plugins@)).to_set(),
{
    let count = new_plugins.len();
    registry.reload_plugins(new_plugins);
    count
}

/// The actions available for content of a type, in listing order.
pub fn list_actions_for_type(registry: &ActionRegistry, content_type: &ContentType, locale: &str) -> (r: Vec<ActionDescriptor>)
    ensures
        descriptor_views(r@) == listed_descriptors(registry@.actions, content_type@, locale@),
{
    registry.list_descriptors(content_type, locale)
}

/// Every action's description, in registration order.
pub fn list_all_action_descriptors(registry: &ActionRegistry, locale: &str) -> (r: Vec<ActionDescriptor>)
    ensures
        descriptor_views(r@) == registry@.actions.map_values(|a: InfoView| descriptor_of(a, locale@)),
{
    registry.list_all_descriptors(locale)
}

/// The message for an action id that is not registered.
pub fn action_not_found(action_id: &str) -> (r: String)
    ensures
        r@ == "操作 '"@ + action_id@ + "' 未找到"@,
{
    concat3("操作 '", action_id, "' 未找到")
}

/// The message for a quick action whose id is not registered.
pub fn quick_action_not_found(action_id: &str) -> (r: String)
    ensures
        r@ == "Action '"@ + action_id@ + "' not found"@,
{
    concat3("Action '", action_id, "' not found")
}

/// The model recorded in the action history: the default backend's name, when it has one.
pub fn history_model(default_backend: String) -> (r: Option<String>)
    ensures
        match r {
            Some(m) => default_backend@.len() > 0 && m@ == default_backend@,
            None => default_backend@.len() == 0,
        },
{
    if chars_of(default_backend.as_str()).len() == 0 {
        None
    } else {
        Some(default_backend)
    }
}

/// An event sent while an action streams its result.
#[derive(Debug, Clone)]
pub struct ActionStreamPayload {
    /// "start", "thinking", "delta", "done" or "error".
    pub event_type: String,
    pub action_id: String,
    pub content: String,
    pub result_type: String,
}

/// `p` has these fields.
pub open spec fn payload_is(p: ActionStreamPayload, event: Seq<char>, id: Seq<char>, content: Seq<char>, result_type: Seq<char>) -> bool {
    p.event_type@ == event && p.action_id@ == id && p.content@ == content && p.result_type@ == result_type
}

impl ActionStreamPayload {
    /// The event that opens a stream.
    pub fn start(action_id: String) -> (r: ActionStreamPayload)
        ensures
            payload_is(r, "start"@, action_id@, Seq::empty(), Seq::empty()),
    {
        ActionStreamPayload { event_type: "start".to_owned(), action_id, content: String::new(), result_type: String::new() }
    }

    /// The event that forwards a piece of the streamed answer.
    pub fn for_chunk(action_id: String, chunk: StreamChunk) -> (r: ActionStreamPayload)
        ensures
            match chunk {
                StreamChunk::Thinking(t) => payload_is(r, "thinking"@, action_id@, t@, Seq::empty()),
                StreamChunk::Delta(t) => payload_is(r, "delta"@, action_id@, t@, Seq::empty()),
            },
    {
        match chunk {
            StreamChunk::Thinking(text) => ActionStreamPayload {
                event_type: "thinking".to_owned(),
                action_id,
                content: text,
                result_type: String::new(),
            },
            StreamChunk::Delta(text) => ActionStreamPayload {
                event_type: "delta".to_owned(),
                action_id,
                content: text,
                result_type: String::new(),
            },
        }
    }

    /// The event that closes a successful stream, with the result's type.
    pub fn done(action_id: String, result_type: String) -> (r: ActionStreamPayload)
        ensures
            payload_is(r, "done"@, action_id@, Seq::empty(), result_type@),
    {
        ActionStreamPayload { event_type: "done".to_owned(), action_id, content: String::new(), result_type }
    }

    /// The event that closes a failed stream, with the error.
    pub fn error(action_id: String, message: String) -> (r: ActionStreamPayload)
        ensures
            payload_is(r, "error"@, action_id@, message@, Seq::empty()),
    {
        ActionStreamPayload { event_type: "error".to_owned(), action_id, content: message, result_type: String::new() }
    }
}

/// The outcome of a quick action.
#[derive(Debug, Clone)]
pub struct QuickActionResult {
    pub success: bool,
    pub action_id: String,
    pub message: String,
}

/// The clipboard text a quick action works on: refused with "Clipboard is empty" when it is
/// blank.
pub fn quick_action_input(text: String) -> (r: Result<String, String>)
    ensures
        match r {
            Ok(t) => trim(text@).len() > 0 && t@ == text@,
            Err(e) => trim(text@).len() == 0 && e@ == "Clipboard is empty"@,
        },
{
    let trimmed = trim_str(text.as_str());
    if chars_of(trimmed.as_str()).len() == 0 {
        Err("Clipboard is empty".to_owned())
    } else {
        Ok(text)
    }
}

/// The successful outcome of a quick action whose result was written back.
pub fn quick_action_done(action_id: String, result: String) -> (r: QuickActionResult)
    ensures
        r.success && r.action_id@ == action_id@ && r.message@ == result@,
{
    QuickActionResult { success: true, action_id, message: result }
}

/// The request of a custom action: the user's prompt as the system message, the content as
/// the user message, temperature 0.5, no token limit.
pub fn custom_prompt_request(content: String, prompt: String, thinking: Option<bool>) -> (r: ChatRequest)
    ensures
        chat_request_is(r, prompt@, content@, None, Some(TEMPERATURE_0_5), thinking),
{
    system_and_user(prompt, content, None, Some(TEMPERATURE_0_5), thinking)
}

} // verus!
