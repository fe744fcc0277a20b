//! Masking of phone numbers, ID numbers and e-mail addresses.
use vstd::prelude::*;
use crate::actions::traits::{kinds_of, ActionInfo, InfoView};
use crate::classifier::{ContentKind, ContentType};
use crate::actions::traits::{ActionInput, ActionOutput};
use crate::foreign::{regex_is_match, regex_replace, regex_replace_all};

verus! {

/// The "Mask Sensitive Info" action.
pub struct MaskSensitiveAction;

impl MaskSensitiveAction {
    /// What the registry knows of this action.
    pub open spec fn info_spec(&self) -> InfoView {
        InfoView {
            id: "mask_sensitive"@,
            display_name: "脱敏处理"@,
            display_name_en: "Mask Sensitive Info"@,
            description: "对手机号、身份证等敏感信息进行脱敏"@,
            description_en: "Mask phone numbers, ID cards, and other sensitive information"@,
            supported_types: seq![ContentKind::PhoneNumber, ContentKind::IdCard, ContentKind::PlainText],
            requires_model: false,
            estimated_duration_ms: 10,
        }
    }

    /// Unique id.
    pub fn id(&self) -> (r: &'static str)
        ensures
            r@ == self.info_spec().id,
    {
        "mask_sensitive"
    }

    /// Display name.
    pub fn display_name(&self) -> (r: &'static str)
        ensures
            r@ == self.info_spec().display_name,
    {
        "脱敏处理"
    }

    /// Display name in English.
    pub fn display_name_en(&self) -> (r: &'static str)
        ensures
            r@ == self.info_spec().display_name_en,
    {
        "Mask Sensitive Info"
    }

    /// Description.
    pub fn description(&self) -> (r: &'static str)
        ensures
            r@ == self.info_spec().description,
    {
        "对手机号、身份证等敏感信息进行脱敏"
    }

    /// Description in English.
    pub fn description_en(&self) -> (r: &'static str)
        ensures
            r@ == self.info_spec().description_en,
    {
        "Mask phone numbers, ID cards, and other sensitive information"
    }

    /// The content types this action handles.
    pub fn supported_types(&self) -> (r: Vec<ContentType>)
        ensures
            kinds_of(r@) == self.info_spec().supported_types,
    {
        let mut v: Vec<ContentType> = Vec::new();
        v.push(ContentType::PhoneNumber);
        v.push(ContentType::IdCard);
        v.push(ContentType::PlainText);
        assert(kinds_of(v@) =~= self.info_spec().supported_types);
        v
    }

    /// Whether this action needs an inference backend.
    pub fn requires_model(&self) -> (r: bool)
        ensures
            r == self.info_spec().requires_model,
    {
        false
    }

    /// Expected duration, in milliseconds.
    pub fn estimated_duration_ms(&self) -> (r: u64)
        ensures
            r == self.info_spec().estimated_duration_ms,
    {
        10
    }

    /// What the registry keeps of this action.
    pub fn info(&self) -> (r: ActionInfo)
        ensures
            r@ == self.info_spec(),
    {
        ActionInfo {
            id: self.id().to_owned(),
            display_name: self.display_name().to_owned(),
            display_name_en: self.display_name_en().to_owned(),
            description: self.description().to_owned(),
            description_en: self.description_en().to_owned(),
            supported_types: self.supported_types(),
            requires_model: self.requires_model(),
            estimated_duration_ms: self.estimated_duration_ms(),
        }
    }
}


/// Phone numbers: the first three and last four digits are kept.
pub const PHONE_MASK_PATTERN: &'static str = r"(1[3-9]\d)\d{4}(\d{4})";

/// Replacement for phone numbers.
pub const PHONE_MASK_REPLACEMENT: &'static str = "$1****$2";

/// ID numbers: the first three and last four digits are kept.
pub const ID_MASK_PATTERN: &'static str = r"(\d{3})\d{11}(\d{4})";

/// Replacement for ID numbers.
pub const ID_MASK_REPLACEMENT: &'static str = "$1***********$2";

/// E-mail addresses: the first character and the domain are kept.
pub const EMAIL_MASK_PATTERN: &'static str = r"([\w])[^@]*(@[\w.-]+)";

/// Replacement for e-mail addresses.
pub const EMAIL_MASK_REPLACEMENT: &'static str = "$1***$2";

/// The text with ID numbers, then phone numbers, then e-mail addresses masked. ID numbers go
/// first: an ID number holds a run that looks like a phone number (every one with a 19xx
/// birth year does), and masking that run first would keep the ID from being masked as the
/// documented "110***********1234".
pub open spec fn masked(t: Seq<char>) -> Seq<char> {
    let ids = regex_replace_all(ID_MASK_PATTERN@, t, ID_MASK_REPLACEMENT@);
    let phones = regex_replace_all(PHONE_MASK_PATTERN@, ids, PHONE_MASK_REPLACEMENT@);
    regex_replace_all(EMAIL_MASK_PATTERN@, phones, EMAIL_MASK_REPLACEMENT@)
}

/// Masks ID numbers, phone numbers and e-mail addresses, in that order.
pub fn mask_text(text: &str) -> (r: String)
    ensures
        r@ == masked(text@),
        !regex_is_match(PHONE_MASK_PATTERN@, text@) && !regex_is_match(ID_MASK_PATTERN@, text@)
            && !regex_is_match(EMAIL_MASK_PATTERN@, text@) ==> r@ == text@,
{
    let ids = regex_replace(ID_MASK_PATTERN, text, ID_MASK_REPLACEMENT);
    let phones = regex_replace(PHONE_MASK_PATTERN, ids.as_str(), PHONE_MASK_REPLACEMENT);
    regex_replace(EMAIL_MASK_PATTERN, phones.as_str(), EMAIL_MASK_REPLACEMENT)
}

impl MaskSensitiveAction {
    /// Masks the sensitive parts of the content.
    pub fn execute(&self, input: ActionInput) -> (r: Result<ActionOutput, String>)
        ensures
            r matches Ok(o) && o.result@ == masked(input.content@) && o.result_type@ == "text"@,
    {
        Ok(ActionOutput { result: mask_text(input.content.as_str()), result_type: "text".to_owned() })
    }
}

} // verus!
