//! The calls into outside crates that the library's logic makes, each with the contract
//! that the crate's documentation supports. Results that would take pages to state are
//! given names; every name is a function of the call's arguments alone.
use vstd::prelude::*;
use sha2::Digest;

verus! {

/// Whether the regular expression `pattern` (regex crate syntax) matches somewhere in `text`;
/// false when `pattern` does not compile.
pub uninterp spec fn regex_is_match(pattern: Seq<char>, text: Seq<char>) -> bool;

/// Number of successive non-overlapping matches of `pattern` in `text`; zero when `pattern`
/// does not compile.
pub uninterp spec fn regex_match_count(pattern: Seq<char>, text: Seq<char>) -> nat;

/// `text` with every non-overlapping match of `pattern` replaced by the expansion of
/// `replacement` (`$1`-style group references); `text` itself when `pattern` does not compile.
pub uninterp spec fn regex_replace_all(
    pattern: Seq<char>,
    text: Seq<char>,
    replacement: Seq<char>,
) -> Seq<char>;

/// Whether `text` parses as a JSON document (`serde_json::from_str::<serde_json::Value>`).
pub uninterp spec fn json_document_parses(text: Seq<char>) -> bool;

/// Whether `text` parses as a YAML document (`serde_yaml::from_str::<serde_yaml::Value>`).
pub uninterp spec fn yaml_document_parses(text: Seq<char>) -> bool;

/// `regex::Regex::new(pattern)` then `Regex::is_match(text)`: reports whether the compiled
/// expression matches anywhere in `text`. The regex language itself is not restated; the
/// result is named and depends on `pattern` and `text` alone.
#[verifier::external_body]
pub fn regex_matches(pattern: &str, text: &str) -> (r: bool)
    ensures
        r == regex_is_match(pattern@, text@),
{
    match regex::Regex::new(pattern) {
        Ok(re) => re.is_match(text),
        Err(_) => false,
    }
}

/// `regex::Regex::new(pattern)` then `Regex::find_iter(text).count()`. The crate documents
/// that `find_iter` yields the successive non-overlapping matches, so the count is zero
/// exactly when `is_match` is false.
#[verifier::external_body]
pub fn regex_count_matches(pattern: &str, text: &str) -> (r: usize)
    ensures
        r == regex_match_count(pattern@, text@),
        (r == 0) == !regex_is_match(pattern@, text@),
{
    match regex::Regex::new(pattern) {
        Ok(re) => re.find_iter(text).count(),
        Err(_) => 0,
    }
}

/// `regex::Regex::new(pattern)` then `Regex::replace_all(text, replacement)`. The crate
/// documents that when no match is found the haystack is returned unchanged.
#[verifier::external_body]
pub fn regex_replace(pattern: &str, text: &str, replacement: &str) -> (r: String)
    ensures
        r@ == regex_replace_all(pattern@, text@, replacement@),
        !regex_is_match(pattern@, text@) ==> r@ == text@,
{
    match regex::Regex::new(pattern) {
        Ok(re) => re.replace_all(text, replacement).into_owned(),
        Err(_) => text.to_string(),
    }
}

/// `serde_json::from_str::<serde_json::Value>(text).is_ok()`.
#[verifier::external_body]
pub fn json_parses(text: &str) -> (r: bool)
    ensures
        r == json_document_parses(text@),
{
    serde_json::from_str::<serde_json::Value>(text).is_ok()
}

/// `serde_yaml::from_str::<serde_yaml::Value>(text).is_ok()`.
#[verifier::external_body]
pub fn yaml_parses(text: &str) -> (r: bool)
    ensures
        r == yaml_document_parses(text@),
{
    serde_yaml::from_str::<serde_yaml::Value>(text).is_ok()
}


/// The views of a list of records of string pairs.
pub open spec fn records_view(v: Seq<Vec<(String, String)>>) -> Seq<Seq<(Seq<char>, Seq<char>)>> {
    Seq::new(v.len(), |i: int| Seq::new(v[i]@.len(), |j: int| (v[i]@[j].0@, v[i]@[j].1@)))
}

/// The text `serde_json::to_string_pretty` gives for a JSON array of objects, one per record,
/// whose members are the record's (key, string value) pairs collected into a
/// `serde_json::Map` (built here without `preserve_order`, so the members come out sorted by
/// key, and a repeated key keeps its last value).
pub uninterp spec fn json_records_pretty(records: Seq<Seq<(Seq<char>, Seq<char>)>>) -> Seq<char>;

/// Builds a JSON array with one object per record (each pair collected into a
/// `serde_json::Map` as key and string value; the map sorts its keys and a repeated key
/// keeps its last value) and serialises it with
/// `serde_json::to_string_pretty`; on failure, the error's message. The crate documents
/// that serialisation fails only for a `Serialize` impl that decides to fail or a map with
/// non-string keys, neither of which a `serde_json::Value` has, so it succeeds; the text
/// is named.
#[verifier::external_body]
pub fn json_records(records: &Vec<Vec<(String, String)>>) -> (r: Result<String, String>)
    ensures
        r is Ok,
        r matches Ok(t) ==> t@ == json_records_pretty(records_view(records@)),
{
    let values: Vec<serde_json::Value> = records
        .iter()
        .map(|rec| serde_json::Value::Object(
            rec.iter().map(|(k, v)| (k.clone(), serde_json::Value::String(v.clone()))).collect(),
        ))
        .collect();
    serde_json::to_string_pretty(&values).map_err(|e| e.to_string())
}


/// The outcome of reading a document in one format and writing it in another.
#[derive(Debug, Clone)]
pub enum Conversion {
    /// The written text.
    Converted(String),
    /// The reader's error message.
    ReadFailed(String),
    /// The writer's error message.
    WriteFailed(String),
}

/// The mathematical value of a `Conversion`.
pub enum ConversionView {
    Converted(Seq<char>),
    ReadFailed(Seq<char>),
    WriteFailed(Seq<char>),
}

impl View for Conversion {
    type V = ConversionView;

    open spec fn view(&self) -> ConversionView {
        match self {
            Conversion::Converted(t) => ConversionView::Converted(t@),
            Conversion::ReadFailed(m) => ConversionView::ReadFailed(m@),
            Conversion::WriteFailed(m) => ConversionView::WriteFailed(m@),
        }
    }
}

/// Outcome of reading `text` as JSON and writing it back with `serde_json::to_string_pretty`.
pub uninterp spec fn json_pretty_outcome(text: Seq<char>) -> ConversionView;

/// Outcome of reading `text` as JSON and writing it as YAML with `serde_yaml::to_string`.
pub uninterp spec fn json_to_yaml_outcome(text: Seq<char>) -> ConversionView;

/// Outcome of reading `text` as YAML and writing it as JSON with `serde_json::to_string_pretty`.
pub uninterp spec fn yaml_to_json_outcome(text: Seq<char>) -> ConversionView;

/// Outcome of reading `text` as YAML and writing it back with `serde_yaml::to_string`.
pub uninterp spec fn yaml_pretty_outcome(text: Seq<char>) -> ConversionView;

/// `serde_json::from_str::<serde_json::Value>` then `serde_json::to_string_pretty`, with each
/// error's message. Reading fails exactly when the text does not parse as JSON; writing a
/// `serde_json::Value` back never fails (the crate documents failures only for `Serialize`
/// impls that decide to fail and for maps with non-string keys).
#[verifier::external_body]
pub fn reformat_json(text: &str) -> (r: Conversion)
    ensures
        r@ == json_pretty_outcome(text@),
        (r is ReadFailed) == !json_document_parses(text@),
        !(r is WriteFailed),
{
    match serde_json::from_str::<serde_json::Value>(text) {
        Err(e) => Conversion::ReadFailed(e.to_string()),
        Ok(v) => match serde_json::to_string_pretty(&v) {
            Ok(t) => Conversion::Converted(t),
            Err(e) => Conversion::WriteFailed(e.to_string()),
        },
    }
}

/// `serde_json::from_str::<serde_json::Value>` then `serde_yaml::to_string`, with each error's
/// message. Reading fails exactly when the text does not parse as JSON.
#[verifier::external_body]
pub fn json_to_yaml(text: &str) -> (r: Conversion)
    ensures
        r@ == json_to_yaml_outcome(text@),
        (r is ReadFailed) == !json_document_parses(text@),
{
    match serde_json::from_str::<serde_json::Value>(text) {
        Err(e) => Conversion::ReadFailed(e.to_string()),
        Ok(v) => match serde_yaml::to_string(&v) {
            Ok(t) => Conversion::Converted(t),
            Err(e) => Conversion::WriteFailed(e.to_string()),
        },
    }
}

/// `serde_yaml::from_str::<serde_yaml::Value>` then `serde_json::to_string_pretty`, with each
/// error's message. Reading fails exactly when the text does not parse as YAML.
#[verifier::external_body]
pub fn yaml_to_json(text: &str) -> (r: Conversion)
    ensures
        r@ == yaml_to_json_outcome(text@),
        (r is ReadFailed) == !yaml_document_parses(text@),
{
    match serde_yaml::from_str::<serde_yaml::Value>(text) {
        Err(e) => Conversion::ReadFailed(e.to_string()),
        Ok(v) => match serde_json::to_string_pretty(&v) {
            Ok(t) => Conversion::Converted(t),
            Err(e) => Conversion::WriteFailed(e.to_string()),
        },
    }
}

/// `serde_yaml::from_str::<serde_yaml::Value>` then `serde_yaml::to_string`, with each error's
/// message. Reading fails exactly when the text does not parse as YAML.
#[verifier::external_body]
pub fn reformat_yaml(text: &str) -> (r: Conversion)
    ensures
        r@ == yaml_pretty_outcome(text@),
        (r is ReadFailed) == !yaml_document_parses(text@),
{
    match serde_yaml::from_str::<serde_yaml::Value>(text) {
        Err(e) => Conversion::ReadFailed(e.to_string()),
        Ok(v) => match serde_yaml::to_string(&v) {
            Ok(t) => Conversion::Converted(t),
            Err(e) => Conversion::WriteFailed(e.to_string()),
        },
    }
}


/// `dirs::home_dir()`, converted with `to_string_lossy`. The answer comes from the
/// environment, so nothing is stated of it.
#[verifier::external_body]
pub fn home_dir() -> (r: Option<String>) {
    dirs::home_dir().map(|p| p.to_string_lossy().into_owned())
}

/// Whether `c` is alphabetic or numeric in Unicode.
pub uninterp spec fn alphanumeric(c: char) -> bool;

/// `char::is_alphanumeric`: true for the characters that Unicode deems alphabetic or
/// numeric. The documentation's own examples make the ASCII letters and digits such
/// characters, and no other ASCII character is either.
#[verifier::external_body]
pub fn is_alphanumeric(c: char) -> (r: bool)
    ensures
        r == alphanumeric(c),
        (c as u32) < 128 ==> (r == ((97 <= (c as u32) <= 122) || (65 <= (c as u32) <= 90) || (48 <= (c as u32) <= 57))),
{
    c.is_alphanumeric()
}

/// The lower-case hexadecimal SHA-256 digest of `bytes`.
pub uninterp spec fn sha256_hex(bytes: Seq<u8>) -> Seq<char>;

/// `sha2::Sha256` over `bytes`, formatted with `{:x}`: the digest's 32 bytes as 64
/// lower-case hexadecimal digits.
#[verifier::external_body]
pub fn sha256_digest_hex(bytes: &[u8]) -> (r: String)
    ensures
        r@ == sha256_hex(bytes@),
        r@.len() == 64,
{
    let mut hasher = sha2::Sha256::new();
    hasher.update(bytes);
    format!("{:x}", hasher.finalize())
}

/// The last component of `path` as `std::path::Path::file_name` gives it (none for a root,
/// an empty path or one ending in ".."), when that component is valid Unicode.
pub uninterp spec fn path_file_name(path: Seq<char>) -> Option<Seq<char>>;

/// `std::path::Path::new(path).file_name()` converted with `to_str`.
#[verifier::external_body]
pub fn file_name_of(path: &str) -> (r: Option<String>)
    ensures
        crate::text::opt_text(r) == path_file_name(path@),
{
    std::path::Path::new(path).file_name().and_then(|n| n.to_str()).map(|n| n.to_string())
}

} // verus!
