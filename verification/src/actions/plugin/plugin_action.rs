//! An action defined by a plugin file: a prompt template sent to the default backend.
use vstd::prelude::*;
use crate::actions::plugin::schema::PluginConfig;
use crate::actions::traits::{ActionInfo, ActionInput, ActionOutput, InfoView, kinds_of};
use crate::classifier::{ContentKind, ContentType};
use crate::model::backend::{ChatRequest, ChatResponse, chat_request_is, system_and_user};
use crate::text::{chars_of, replace_all, replace_all_chars, starts_with, starts_with_chars, string_from_chars, texts};

verus! {

/// The content type a plugin names, if it is one: the exact names of the simple kinds, and
/// any name starting with "Code" or "TableData" for those kinds (without a hint).
pub open spec fn content_type_named(s: Seq<char>) -> Option<ContentKind> {
    if s == "Json"@ {
        Some(ContentKind::Json)
    } else if s == "Yaml"@ {
        Some(ContentKind::Yaml)
    } else if s == "Url"@ {
        Some(ContentKind::Url)
    } else if s == "Email"@ {
        Some(ContentKind::Email)
    } else if s == "PhoneNumber"@ {
        Some(ContentKind::PhoneNumber)
    } else if s == "IdCard"@ {
        Some(ContentKind::IdCard)
    } else if s == "MathExpression"@ {
        Some(ContentKind::MathExpression)
    } else if s == "FileList"@ {
        Some(ContentKind::FileList)
    } else if s == "PlainText"@ {
        Some(ContentKind::PlainText)
    } else if starts_with(s, "Code"@) {
        Some(ContentKind::Code(""@))
    } else if starts_with(s, "TableData"@) {
        Some(ContentKind::TableData(""@))
    } else {
        None
    }
}

/// The content types named in `names`, in order, unknown names left out.
pub open spec fn kinds_named(names: Seq<Seq<char>>) -> Seq<ContentKind>
    decreases names.len(),
{
    if names.len() == 0 {
        Seq::empty()
    } else {
        let rest = kinds_named(names.drop_last());
        match content_type_named(names.last()) {
            Some(k) => rest.push(k),
            None => rest,
        }
    }
}

/// `template` with every `{{content}}` replaced by `content`.
pub open spec fn rendered(template: Seq<char>, content: Seq<char>) -> Seq<char> {
    replace_all(template, "{{content}}"@, content)
}

/// Whether two strings are equal.
fn same_text(a: &str, b: &str) -> (r: bool)
    ensures
        r == (a@ == b@),
{
    a.to_owned() == b.to_owned()
}

/// An action defined by a plugin file.
pub struct PluginAction {
    pub config: PluginConfig,
    /// The file it was read from.
    pub source_path: String,
}

impl PluginAction {
    /// The action of a plugin file.
    pub fn new(config: PluginConfig, source_path: String) -> (r: PluginAction)
        ensures
            r.config@ == config@,
            r.source_path@ == source_path@,
    {
        PluginAction { config, source_path }
    }

    /// The plugin's display name.
    pub fn plugin_name(&self) -> (r: &str)
        ensures
            r@ == self.config@.plugin.name,
    {
        self.config.plugin.name.as_str()
    }

    /// The content type named `s`, if it is one.
    pub fn parse_content_type(s: &str) -> (r: Option<ContentType>)
        ensures
            match r {
                Some(t) => content_type_named(s@) == Some(t@),
                None => content_type_named(s@) is None,
            },
    {
        if same_text(s, "Json") {
            Some(ContentType::Json)
        } else if same_text(s, "Yaml") {
            Some(ContentType::Yaml)
        } else if same_text(s, "Url") {
            Some(ContentType::Url)
        } else if same_text(s, "Email") {
            Some(ContentType::Email)
        } else if same_text(s, "PhoneNumber") {
            Some(ContentType::PhoneNumber)
        } else if same_text(s, "IdCard") {
            Some(ContentType::IdCard)
        } else if same_text(s, "MathExpression") {
            Some(ContentType::MathExpression)
        } else if same_text(s, "FileList") {
            Some(ContentType::FileList)
        } else if same_text(s, "PlainText") {
            Some(ContentType::PlainText)
        } else {
            let sc = chars_of(s);
            let code = chars_of("Code");
            if starts_with_chars(&sc, &code) {
                Some(ContentType::Code("".to_owned()))
            } else {
                let table = chars_of("TableData");
                if starts_with_chars(&sc, &table) {
                    Some(ContentType::TableData("".to_owned()))
                } else {
                    None
                }
            }
        }
    }

    /// `template` with every `{{content}}` replaced by `content`.
    pub fn render_template(template: &str, content: &str) -> (r: String)
        ensures
            r@ == rendered(template@, content@),
    {
        proof {
            reveal_strlit("{{content}}");
        }
        let t = chars_of(template);
        let from = chars_of("{{content}}");
        let to = chars_of(content);
        let out = replace_all_chars(&t, &from, &to);
        string_from_chars(&out)
    }

    /// Unique id.
    pub fn id(&self) -> (r: &str)
        ensures
            r@ == self.config@.plugin.id,
    {
        self.config.plugin.id.as_str()
    }

    /// Display name.
    pub fn display_name(&self) -> (r: &str)
        ensures
            r@ == self.config@.plugin.name,
    {
        self.config.plugin.name.as_str()
    }

    /// Description.
    pub fn description(&self) -> (r: &str)
        ensures
            r@ == self.config@.plugin.description,
    {
        self.config.plugin.description.as_str()
    }

    /// The content types the plugin is offered for.
    pub fn supported_types(&self) -> (r: Vec<ContentType>)
        ensures
            kinds_of(r@) == kinds_named(self.config@.trigger.content_types),
    {
        let names = &self.config.trigger.content_types;
        let ghost all = texts(names@);
        let mut out: Vec<ContentType> = Vec::new();
        let n = names.len();
        let mut i: usize = 0;
        while i < n
            invariant
                n == names@.len(),
                all == texts(names@),
                all == self.config@.trigger.content_types,
                i <= n,
                kinds_of(out@) == kinds_named(all.take(i as int)),
            decreases n - i,
        {
            assert(all.take(i as int + 1).drop_last() == all.take(i as int));
            let parsed = PluginAction::parse_content_type(names[i].as_str());
            match parsed {
                Some(t) => {
                    out.push(t);
                    assert(kinds_of(out@) =~= kinds_of(out@.drop_last()).push(out@.last()@));
                },
                None => {},
            }
            i = i + 1;
        }
        assert(all.take(n as int) == all);
        out
    }

    /// Every plugin action asks a model.
    pub fn requires_model(&self) -> (r: bool)
        ensures
            r,
    {
        true
    }

    /// The estimated duration: eight seconds.
    pub fn estimated_duration_ms(&self) -> (r: u64)
        ensures
            r == 8000,
    {
        8000
    }

    /// What the registry knows of this action: the plugin's name and description in every
    /// locale.
    pub fn info(&self) -> (r: ActionInfo)
        ensures
            r@ == (InfoView {
                id: self.config@.plugin.id,
                display_name: self.config@.plugin.name,
                display_name_en: self.config@.plugin.name,
                description: self.config@.plugin.description,
                description_en: self.config@.plugin.description,
                supported_types: kinds_named(self.config@.trigger.content_types),
                requires_model: true,
                estimated_duration_ms: 8000,
            }),
    {
        ActionInfo {
            id: self.config.plugin.id.clone(),
            display_name: self.config.plugin.name.clone(),
            display_name_en: self.config.plugin.name.clone(),
            description: self.config.plugin.description.clone(),
            description_en: self.config.plugin.description.clone(),
            supported_types: self.supported_types(),
            requires_model: true,
            estimated_duration_ms: 8000,
        }
    }

    /// The request for `input`: the rendered system prompt, the rendered user prompt (or the
    /// content itself), the plugin's token limit and temperature.
    pub fn request(&self, input: &ActionInput) -> (r: ChatRequest)
        ensures
            chat_request_is(
                r,
                rendered(self.config@.action.system_prompt, input.content@),
                match self.config@.action.user_prompt {
                    Some(t) => rendered(t, input.content@),
                    None => input.content@,
                },
                self.config@.action.max_tokens,
                self.config@.action.temperature_bits,
                None,
            ),
    {
        let system = PluginAction::render_template(self.config.action.system_prompt.as_str(), input.content.as_str());
        let user = match &self.config.action.user_prompt {
            Some(t) => PluginAction::render_template(t.as_str(), input.content.as_str()),
            None => input.content.clone(),
        };
        system_and_user(system, user, self.config.action.max_tokens, self.config.action.temperature_bits, None)
    }

    /// The action's output from the model's answer, typed as the plugin says.
    pub fn output(&self, response: ChatResponse) -> (r: ActionOutput)
        ensures
            r.result@ == response.content@,
            r.result_type@ == self.config@.action.output_type,
    {
        ActionOutput { result: response.content, result_type: self.config.action.output_type.clone() }
    }
}

/// The position of the first plugin action with id `id`, if any.
pub fn find_plugin(plugins: &Vec<PluginAction>, id: &str) -> (r: Option<usize>)
    ensures
        match r {
            Some(k) => k < plugins@.len() && plugins@[k as int].config@.plugin.id == id@
                && forall|j: int| 0 <= j < k ==> plugins@[j].config@.plugin.id != id@,
            None => forall|j: int| 0 <= j < plugins@.len() ==> plugins@[j].config@.plugin.id != id@,
        },
{
    let mut k: usize = 0;
    while k < plugins.len()
        invariant
            k <= plugins@.len(),
            forall|j: int| 0 <= j < k ==> plugins@[j].config@.plugin.id != id@,
        decreases plugins@.len() - k,
    {
        if crate::text::str_eq(plugins[k].id(), id) {
            return Some(k);
        }
        k = k + 1;
    }
    None
}

/// The name under which a content type is written (as its `Debug` form prints it): the
/// variant's name, with the language or format in quotes and brackets for code and tables.
pub open spec fn kind_name(k: ContentKind) -> Seq<char> {
    match k {
        ContentKind::Json => "Json"@,
        ContentKind::Yaml => "Yaml"@,
        ContentKind::Url => "Url"@,
        ContentKind::Email => "Email"@,
        ContentKind::PhoneNumber => "PhoneNumber"@,
        ContentKind::IdCard => "IdCard"@,
        ContentKind::MathExpression => "MathExpression"@,
        ContentKind::Code(l) => "Code(\""@ + l + "\")"@,
        ContentKind::TableData(f) => "TableData(\""@ + f + "\")"@,
        ContentKind::Image => "Image"@,
        ContentKind::FileList => "FileList"@,
        ContentKind::PlainText => "PlainText"@,
        ContentKind::Unknown => "Unknown"@,
    }
}

/// A plugin that names a content type the way it is written gets that type back: every
/// simple type by its own name, code and tables (without their hint) by theirs. Images and
/// unknown content cannot be named.
pub proof fn law_content_type_names_round_trip(k: ContentKind)
    ensures
        match k {
            ContentKind::Code(_) => content_type_named(kind_name(k)) == Some(ContentKind::Code(""@)),
            ContentKind::TableData(_) => content_type_named(kind_name(k)) == Some(ContentKind::TableData(""@)),
            ContentKind::Image | ContentKind::Unknown => content_type_named(kind_name(k)) is None,
            _ => content_type_named(kind_name(k)) == Some(k),
        },
{
    reveal_strlit("Json");
    reveal_strlit("Yaml");
    reveal_strlit("Url");
    reveal_strlit("Email");
    reveal_strlit("PhoneNumber");
    reveal_strlit("IdCard");
    reveal_strlit("MathExpression");
    reveal_strlit("FileList");
    reveal_strlit("PlainText");
    reveal_strlit("Image");
    reveal_strlit("Unknown");
    reveal_strlit("Code");
    reveal_strlit("TableData");
    reveal_strlit("Code(\"");
    reveal_strlit("TableData(\"");
    reveal_strlit("\")");
    let n = kind_name(k);
    assert("Json"@[0] == 'J' && "Yaml"@[0] == 'Y' && "Url"@[0] == 'U' && "Email"@[0] == 'E');
    assert("PhoneNumber"@[0] == 'P' && "IdCard"@[0] == 'I' && "MathExpression"@[0] == 'M');
    assert("FileList"@[0] == 'F' && "PlainText"@[0] == 'P' && "Code"@[0] == 'C' && "TableData"@[0] == 'T');
    match k {
        ContentKind::Code(l) => {
            assert(n[0] == 'C');
            assert(n.take(4) =~= "Code"@);
            assert(starts_with(n, "Code"@));
        },
        ContentKind::TableData(f) => {
            assert(n[0] == 'T');
            assert(n.take(9) =~= "TableData"@);
            assert(n.take(4)[0] == 'T');
            assert(!starts_with(n, "Code"@));
            assert(starts_with(n, "TableData"@));
        },
        ContentKind::Image => {
            assert(n.take(4)[0] == 'I');
            assert(!starts_with(n, "Code"@));
            assert(n.len() < 9);
            assert(!starts_with(n, "TableData"@));
        },
        ContentKind::Unknown => {
            assert(n.take(4)[0] == 'U');
            assert(!starts_with(n, "Code"@));
            assert(n.len() < 9);
            assert(!starts_with(n, "TableData"@));
        },
        _ => {},
    }
}

} // verus!
