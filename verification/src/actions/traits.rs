//! The data that actions consume and produce, and the description of an action.
use vstd::prelude::*;
use crate::classifier::{ContentKind, ContentType};
use crate::text::{chars_of, starts_with, starts_with_chars};

verus! {

/// What an action works on.
#[derive(Debug, Clone)]
pub struct ActionInput {
    pub content: String,
    pub content_type: ContentType,
    /// Whether deep thinking is asked for (`None`: the model decides).
    pub thinking: Option<bool>,
}

/// What an action produces.
#[derive(Debug, Clone)]
pub struct ActionOutput {
    pub result: String,
    /// "text", "code", "markdown", "json", ...
    pub result_type: String,
}

/// The mathematical value of an `ActionOutput`.
pub struct OutputView {
    pub result: Seq<char>,
    pub result_type: Seq<char>,
}

impl View for ActionOutput {
    type V = OutputView;

    open spec fn view(&self) -> OutputView {
        OutputView { result: self.result@, result_type: self.result_type@ }
    }
}

/// How an action is shown to the user.
#[derive(Debug, Clone)]
pub struct ActionDescriptor {
    pub id: String,
    pub display_name: String,
    pub description: String,
    /// "specific" or "general".
    pub action_scope: String,
    pub requires_model: bool,
    pub estimated_duration_ms: u64,
}

/// The mathematical value of an `ActionDescriptor`.
pub struct DescriptorView {
    pub id: Seq<char>,
    pub display_name: Seq<char>,
    pub description: Seq<char>,
    pub action_scope: Seq<char>,
    pub requires_model: bool,
    pub estimated_duration_ms: u64,
}

impl View for ActionDescriptor {
    type V = DescriptorView;

    open spec fn view(&self) -> DescriptorView {
        DescriptorView {
            id: self.id@,
            display_name: self.display_name@,
            description: self.description@,
            action_scope: self.action_scope@,
            requires_model: self.requires_model,
            estimated_duration_ms: self.estimated_duration_ms,
        }
    }
}

/// What the registry knows of an action: its identity, names in both languages, the content
/// types it supports, whether it needs a model, and its expected duration.
#[derive(Debug, Clone)]
pub struct ActionInfo {
    pub id: String,
    pub display_name: String,
    pub display_name_en: String,
    pub description: String,
    pub description_en: String,
    pub supported_types: Vec<ContentType>,
    pub requires_model: bool,
    pub estimated_duration_ms: u64,
}

/// The mathematical value of an `ActionInfo`.
pub struct InfoView {
    pub id: Seq<char>,
    pub display_name: Seq<char>,
    pub display_name_en: Seq<char>,
    pub description: Seq<char>,
    pub description_en: Seq<char>,
    pub supported_types: Seq<ContentKind>,
    pub requires_model: bool,
    pub estimated_duration_ms: u64,
}

impl View for ActionInfo {
    type V = InfoView;

    open spec fn view(&self) -> InfoView {
        InfoView {
            id: self.id@,
            display_name: self.display_name@,
            display_name_en: self.display_name_en@,
            description: self.description@,
            description_en: self.description_en@,
            supported_types: kinds_of(self.supported_types@),
            requires_model: self.requires_model,
            estimated_duration_ms: self.estimated_duration_ms,
        }
    }
}

/// The descriptor of an action for a locale: English names for a locale starting with "en",
/// the default names otherwise; the scope is "specific".
pub open spec fn descriptor_of(info: InfoView, locale: Seq<char>) -> DescriptorView {
    let en = starts_with(locale, "en"@);
    DescriptorView {
        id: info.id,
        display_name: if en {
            info.display_name_en
        } else {
            info.display_name
        },
        description: if en {
            info.description_en
        } else {
            info.description
        },
        action_scope: "specific"@,
        requires_model: info.requires_model,
        estimated_duration_ms: info.estimated_duration_ms,
    }
}

/// The views of a list of content types.
pub open spec fn kinds_of(v: Seq<ContentType>) -> Seq<ContentKind> {
    Seq::new(v.len(), |i: int| v[i]@)
}

/// A copy of a list of content types.
pub fn copy_types(v: &Vec<ContentType>) -> (r: Vec<ContentType>)
    ensures
        kinds_of(r@) == kinds_of(v@),
{
    let mut r: Vec<ContentType> = Vec::new();
    let mut i: usize = 0;
    while i < v.len()
        invariant
            i <= v@.len(),
            r@.len() == i,
            forall|k: int| 0 <= k < i ==> (#[trigger] r@[k])@ == v@[k]@,
        decreases v@.len() - i,
    {
        r.push(v[i].duplicate());
        i = i + 1;
    }
    assert(kinds_of(r@) =~= kinds_of(v@));
    r
}

impl ActionInfo {
    /// A copy of this description.
    pub fn duplicate(&self) -> (r: ActionInfo)
        ensures
            r@ == self@,
    {
        ActionInfo {
            id: self.id.clone(),
            display_name: self.display_name.clone(),
            display_name_en: self.display_name_en.clone(),
            description: self.description.clone(),
            description_en: self.description_en.clone(),
            supported_types: copy_types(&self.supported_types),
            requires_model: self.requires_model,
            estimated_duration_ms: self.estimated_duration_ms,
        }
    }

    /// The descriptor shown for this action in a locale.
    pub fn to_descriptor(&self, locale: &str) -> (r: ActionDescriptor)
        ensures
            r@ == descriptor_of(self@, locale@),
    {
        let en = starts_with_chars(&chars_of(locale), &chars_of("en"));
        let (name, desc) = if en {
            (self.display_name_en.clone(), self.description_en.clone())
        } else {
            (self.display_name.clone(), self.description.clone())
        };
        ActionDescriptor {
            id: self.id.clone(),
            display_name: name,
            description: desc,
            action_scope: "specific".to_owned(),
            requires_model: self.requires_model,
            estimated_duration_ms: self.estimated_duration_ms,
        }
    }
}

} // verus!
