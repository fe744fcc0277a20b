//! Rule-based classification of clipboard text.
use vstd::prelude::*;
use crate::foreign::{
    json_document_parses, json_parses, regex_is_match, regex_matches, yaml_document_parses,
    yaml_parses,
};
use crate::text::{
    append_chars, byte_len, chars_of, contains, contains_chars, count_char, count_char_exec,
    ends_with, ends_with_chars, utf8_width, is_whitespace, lines, lines_of, trim, trim_chars, trim_str,
};

verus! {

/// The kinds of clipboard content the assistant recognises.
#[derive(Debug, Clone, PartialEq)]
pub enum ContentType {
    Json,
    Yaml,
    Url,
    Email,
    PhoneNumber,
    IdCard,
    MathExpression,
    /// Source code, with a language hint.
    Code(String),
    /// Table data, with its format: "tsv" or "csv".
    TableData(String),
    Image,
    FileList,
    PlainText,
    Unknown,
}

/// The mathematical value of a `ContentType`: the same variants over character sequences.
pub enum ContentKind {
    Json,
    Yaml,
    Url,
    Email,
    PhoneNumber,
    IdCard,
    MathExpression,
    Code(Seq<char>),
    TableData(Seq<char>),
    Image,
    FileList,
    PlainText,
    Unknown,
}

impl View for ContentType {
    type V = ContentKind;

    open spec fn view(&self) -> ContentKind {
        match self {
            ContentType::Json => ContentKind::Json,
            ContentType::Yaml => ContentKind::Yaml,
            ContentType::Url => ContentKind::Url,
            ContentType::Email => ContentKind::Email,
            ContentType::PhoneNumber => ContentKind::PhoneNumber,
            ContentType::IdCard => ContentKind::IdCard,
            ContentType::MathExpression => ContentKind::MathExpression,
            ContentType::Code(l) => ContentKind::Code(l@),
            ContentType::TableData(f) => ContentKind::TableData(f@),
            ContentType::Image => ContentKind::Image,
            ContentType::FileList => ContentKind::FileList,
            ContentType::PlainText => ContentKind::PlainText,
            ContentType::Unknown => ContentKind::Unknown,
        }
    }
}

impl ContentType {
    /// Whether two content types are the same, language and format hints included.
    pub fn same_as(&self, other: &ContentType) -> (r: bool)
        ensures
            r == (self@ == other@),
    {
        match self {
            ContentType::Json => match *other {
                ContentType::Json => true,
                _ => false,
            },
            ContentType::Yaml => match *other {
                ContentType::Yaml => true,
                _ => false,
            },
            ContentType::Url => match *other {
                ContentType::Url => true,
                _ => false,
            },
            ContentType::Email => match *other {
                ContentType::Email => true,
                _ => false,
            },
            ContentType::PhoneNumber => match *other {
                ContentType::PhoneNumber => true,
                _ => false,
            },
            ContentType::IdCard => match *other {
                ContentType::IdCard => true,
                _ => false,
            },
            ContentType::MathExpression => match *other {
                ContentType::MathExpression => true,
                _ => false,
            },
            ContentType::Code(a) => match *other {
                ContentType::Code(ref b) => *a == *b,
                _ => false,
            },
            ContentType::TableData(a) => match *other {
                ContentType::TableData(ref b) => *a == *b,
                _ => false,
            },
            ContentType::Image => match *other {
                ContentType::Image => true,
                _ => false,
            },
            ContentType::FileList => match *other {
                ContentType::FileList => true,
                _ => false,
            },
            ContentType::PlainText => match *other {
                ContentType::PlainText => true,
                _ => false,
            },
            ContentType::Unknown => match *other {
                ContentType::Unknown => true,
                _ => false,
            },
        }
    }

    /// A copy of this content type.
    pub fn duplicate(&self) -> (r: ContentType)
        ensures
            r@ == self@,
    {
        match self {
            ContentType::Json => ContentType::Json,
            ContentType::Yaml => ContentType::Yaml,
            ContentType::Url => ContentType::Url,
            ContentType::Email => ContentType::Email,
            ContentType::PhoneNumber => ContentType::PhoneNumber,
            ContentType::IdCard => ContentType::IdCard,
            ContentType::MathExpression => ContentType::MathExpression,
            ContentType::Code(l) => ContentType::Code(l.clone()),
            ContentType::TableData(f) => ContentType::TableData(f.clone()),
            ContentType::Image => ContentType::Image,
            ContentType::FileList => ContentType::FileList,
            ContentType::PlainText => ContentType::PlainText,
            ContentType::Unknown => ContentType::Unknown,
        }
    }
}

/// Pattern for a bare http(s) URL.
pub const URL_PATTERN: &'static str = r"^https?://\S+$";

/// Pattern for an e-mail address.
pub const EMAIL_PATTERN: &'static str = r"^[\w.+-]+@[\w-]+\.[\w.-]+$";

/// Pattern for a mainland-China mobile number.
pub const PHONE_PATTERN: &'static str = r"^1[3-9]\d{9}$";

/// Pattern for a mainland-China resident ID number.
pub const ID_CARD_PATTERN: &'static str = r"^\d{17}[\dXx]$";

/// Pattern for an arithmetic expression.
pub const MATH_EXPR_PATTERN: &'static str = r"^[\d\s\+\-\*/\(\)\.\^%]+$";

/// What the outside checks report about a (trimmed) text.
#[derive(Debug, Clone, Copy, PartialEq, Eq)]
pub struct RuleFacts {
    pub url: bool,
    pub email: bool,
    pub phone: bool,
    pub id_card: bool,
    pub json: bool,
    pub yaml: bool,
    pub math: bool,
}

/// The outside checks' answers on a text.
pub open spec fn facts_of(t: Seq<char>) -> RuleFacts {
    RuleFacts {
        url: regex_is_match(URL_PATTERN@, t),
        email: regex_is_match(EMAIL_PATTERN@, t),
        phone: regex_is_match(PHONE_PATTERN@, t),
        id_card: regex_is_match(ID_CARD_PATTERN@, t),
        json: json_document_parses(t),
        yaml: yaml_document_parses(t),
        math: regex_is_match(MATH_EXPR_PATTERN@, t),
    }
}

/// Some line, trimmed, holds ": " or ends with ':'.
pub open spec fn has_key_value_line(t: Seq<char>) -> bool {
    exists|i: int|
        0 <= i < lines(t).len() && (contains(trim(#[trigger] lines(t)[i]), ": "@) || ends_with(
            trim(lines(t)[i]),
            ":"@,
        ))
}

/// Every line holds as many `c` as the first.
pub open spec fn all_same_count(ls: Seq<Seq<char>>, c: char) -> bool {
    forall|i: int| 0 <= i < ls.len() ==> count_char(#[trigger] ls[i], c) == count_char(ls[0], c)
}

/// Table format of a text: "tsv" when every line (at least two) holds the same positive number
/// of tabs; else "csv" when every line holds the same positive number of commas and the text
/// holds none of "{", "import ", "function ".
pub open spec fn detect_table(t: Seq<char>) -> Option<Seq<char>> {
    let ls = lines(t);
    if ls.len() < 2 {
        None
    } else if count_char(ls[0], '\t') > 0 && all_same_count(ls, '\t') {
        Some("tsv"@)
    } else if count_char(ls[0], ',') >= 1 && all_same_count(ls, ',') && !contains(t, "{"@)
        && !contains(t, "import "@) && !contains(t, "function "@) {
        Some("csv"@)
    } else {
        None
    }
}

/// The keywords whose presence suggests source code.
pub open spec fn code_indicator(i: int) -> Seq<char> {
    if i == 0 {
        "function "@
    } else if i == 1 {
        "fn "@
    } else if i == 2 {
        "def "@
    } else if i == 3 {
        "class "@
    } else if i == 4 {
        "import "@
    } else if i == 5 {
        "export "@
    } else if i == 6 {
        "const "@
    } else if i == 7 {
        "let "@
    } else if i == 8 {
        "var "@
    } else if i == 9 {
        "if ("@
    } else if i == 10 {
        "if("@
    } else if i == 11 {
        "for ("@
    } else if i == 12 {
        "for("@
    } else if i == 13 {
        "while "@
    } else if i == 14 {
        "return "@
    } else if i == 15 {
        "struct "@
    } else if i == 16 {
        "enum "@
    } else if i == 17 {
        "impl "@
    } else if i == 18 {
        "pub fn"@
    } else if i == 19 {
        "async "@
    } else if i == 20 {
        "await "@
    } else if i == 21 {
        "=>"@
    } else if i == 22 {
        "->"@
    } else if i == 23 {
        "println!"@
    } else if i == 24 {
        "#include"@
    } else if i == 25 {
        "package "@
    } else if i == 26 {
        "interface "@
    } else {
        "namespace "@
    }
}

/// Number of code keywords.
pub open spec fn code_indicator_total() -> int {
    28
}

/// Number of the first `n` code keywords that occur in `t`.
pub open spec fn indicator_hits(t: Seq<char>, n: int) -> nat
    decreases n,
{
    if n <= 0 {
        0
    } else {
        indicator_hits(t, n - 1) + if contains(t, code_indicator(n - 1)) {
            1nat
        } else {
            0nat
        }
    }
}

/// At least two code keywords occur, or one does and the text has at least three lines.
pub open spec fn likely_code(t: Seq<char>) -> bool {
    let count = indicator_hits(t, code_indicator_total());
    count >= 2 || (count >= 1 && lines(t).len() >= 3)
}

/// The language guessed for a code snippet.
pub open spec fn language_of(t: Seq<char>) -> Seq<char> {
    if contains(t, "fn "@) || contains(t, "let mut "@) || contains(t, "println!"@) {
        "rust"@
    } else if contains(t, "def "@) || (contains(t, "import "@) && contains(t, ":"@)) {
        "python"@
    } else if contains(t, "function "@) || contains(t, "const "@) || contains(t, "=>"@) {
        "javascript"@
    } else if contains(t, "public class "@) || contains(t, "System.out"@) {
        "java"@
    } else {
        "unknown"@
    }
}

/// The class of a trimmed text, given the outside checks' answers on it, in the order the
/// rules are tried: URL, e-mail, phone, ID card, JSON, YAML, arithmetic, table, code, text.
pub open spec fn classify_decision(t: Seq<char>, f: RuleFacts) -> ContentKind {
    if f.url {
        ContentKind::Url
    } else if f.email {
        ContentKind::Email
    } else if f.phone {
        ContentKind::PhoneNumber
    } else if f.id_card {
        ContentKind::IdCard
    } else if f.json {
        ContentKind::Json
    } else if contains(t, ":"@) && f.yaml && has_key_value_line(t) {
        ContentKind::Yaml
    } else if f.math && byte_len(t) > 1 {
        ContentKind::MathExpression
    } else if detect_table(t) is Some {
        ContentKind::TableData(detect_table(t)->0)
    } else if likely_code(t) {
        ContentKind::Code(language_of(t))
    } else {
        ContentKind::PlainText
    }
}

/// The class that the rules give to a clipboard text.
pub open spec fn classify(content: Seq<char>) -> ContentKind {
    classify_decision(trim(content), facts_of(trim(content)))
}


/// Has `has_key_value_line` been found among the lines from `k` on?
pub fn has_key_value_line_exec(t: &[char]) -> (r: bool)
    ensures
        r == has_key_value_line(t@),
{
    let ls = lines_of(t);
    let ghost lv = ls@.map_values(|l: Vec<char>| l@);
    let colon_space = chars_of(": ");
    let colon = chars_of(":");
    let mut i: usize = 0;
    while i < ls.len()
        invariant
            i <= ls@.len(),
            lv == ls@.map_values(|l: Vec<char>| l@),
            lv == lines(t@),
            colon_space@ == ": "@,
            colon@ == ":"@,
            forall|k: int|
                0 <= k < i ==> !(contains(trim(#[trigger] lv[k]), ": "@) || ends_with(
                    trim(lv[k]),
                    ":"@,
                )),
        decreases ls@.len() - i,
    {
        let l = trim_chars(&ls[i]);
        assert(lv[i as int] == ls@[i as int]@);
        if contains_chars(&l, &colon_space) || ends_with_chars(&l, &colon) {
            return true;
        }
        i = i + 1;
    }
    false
}

/// Whether every line holds as many `c` as the first.
pub fn all_same_count_exec(ls: &Vec<Vec<char>>, c: char) -> (r: bool)
    requires
        ls@.len() > 0,
    ensures
        r == all_same_count(ls@.map_values(|l: Vec<char>| l@), c),
{
    let ghost lv = ls@.map_values(|l: Vec<char>| l@);
    let first = count_char_exec(&ls[0], c);
    let mut i: usize = 0;
    while i < ls.len()
        invariant
            i <= ls@.len(),
            ls@.len() > 0,
            lv == ls@.map_values(|l: Vec<char>| l@),
            first == count_char(lv[0], c),
            forall|k: int| 0 <= k < i ==> count_char(#[trigger] lv[k], c) == count_char(lv[0], c),
        decreases ls@.len() - i,
    {
        assert(lv[i as int] == ls@[i as int]@);
        if count_char_exec(&ls[i], c) != first {
            return false;
        }
        i = i + 1;
    }
    true
}

/// The table format of a text: "tsv", "csv", or none.
pub fn detect_table_data(t: &[char]) -> (r: Option<String>)
    ensures
        r is Some == detect_table(t@) is Some,
        r matches Some(f) ==> f@ == detect_table(t@)->0,
{
    let ls = lines_of(t);
    let ghost lv = ls@.map_values(|l: Vec<char>| l@);
    assert(lv == lines(t@));
    if ls.len() < 2 {
        return None;
    }
    assert(lv[0] == ls@[0]@);
    if count_char_exec(&ls[0], '\t') > 0 && all_same_count_exec(&ls, '\t') {
        return Some("tsv".to_owned());
    }
    if count_char_exec(&ls[0], ',') >= 1 && all_same_count_exec(&ls, ',') && !contains_chars(
        t,
        &chars_of("{"),
    ) && !contains_chars(t, &chars_of("import ")) && !contains_chars(t, &chars_of("function ")) {
        return Some("csv".to_owned());
    }
    None
}

/// One of the code keywords.
pub fn code_indicator_exec(i: usize) -> (r: &'static str)
    requires
        i < code_indicator_total(),
    ensures
        r@ == code_indicator(i as int),
{
    if i == 0 {
        "function "
    } else if i == 1 {
        "fn "
    } else if i == 2 {
        "def "
    } else if i == 3 {
        "class "
    } else if i == 4 {
        "import "
    } else if i == 5 {
        "export "
    } else if i == 6 {
        "const "
    } else if i == 7 {
        "let "
    } else if i == 8 {
        "var "
    } else if i == 9 {
        "if ("
    } else if i == 10 {
        "if("
    } else if i == 11 {
        "for ("
    } else if i == 12 {
        "for("
    } else if i == 13 {
        "while "
    } else if i == 14 {
        "return "
    } else if i == 15 {
        "struct "
    } else if i == 16 {
        "enum "
    } else if i == 17 {
        "impl "
    } else if i == 18 {
        "pub fn"
    } else if i == 19 {
        "async "
    } else if i == 20 {
        "await "
    } else if i == 21 {
        "=>"
    } else if i == 22 {
        "->"
    } else if i == 23 {
        "println!"
    } else if i == 24 {
        "#include"
    } else if i == 25 {
        "package "
    } else if i == 26 {
        "interface "
    } else {
        "namespace "
    }
}

/// Whether a text looks like source code.
pub fn is_likely_code(t: &[char]) -> (r: bool)
    ensures
        r == likely_code(t@),
{
    let mut count: usize = 0;
    let mut i: usize = 0;
    while i < 28
        invariant
            i <= 28,
            count == indicator_hits(t@, i as int),
            count <= i,
        decreases 28 - i,
    {
        let kw = chars_of(code_indicator_exec(i));
        if contains_chars(t, &kw) {
            count = count + 1;
        }
        i = i + 1;
    }
    let ls = lines_of(t);
    assert(ls@.map_values(|l: Vec<char>| l@).len() == ls@.len());
    count >= 2 || (count >= 1 && ls.len() >= 3)
}

/// The language guessed for a code snippet.
pub fn detect_language(t: &[char]) -> (r: String)
    ensures
        r@ == language_of(t@),
{
    if contains_chars(t, &chars_of("fn ")) || contains_chars(t, &chars_of("let mut "))
        || contains_chars(t, &chars_of("println!")) {
        "rust".to_owned()
    } else if contains_chars(t, &chars_of("def ")) || (contains_chars(t, &chars_of("import "))
        && contains_chars(t, &chars_of(":"))) {
        "python".to_owned()
    } else if contains_chars(t, &chars_of("function ")) || contains_chars(t, &chars_of("const "))
        || contains_chars(t, &chars_of("=>")) {
        "javascript".to_owned()
    } else if contains_chars(t, &chars_of("public class ")) || contains_chars(
        t,
        &chars_of("System.out"),
    ) {
        "java".to_owned()
    } else {
        "unknown".to_owned()
    }
}

/// Whether the UTF-8 encoding of `t` takes more than one byte.
pub fn longer_than_one_byte(t: &[char]) -> (r: bool)
    ensures
        r == (byte_len(t@) > 1),
{
    proof {
        if t@.len() >= 2 {
            crate::text::lemma_byte_len_mono(t@, 2, t@.len() as int);
            assert(t@.take(t@.len() as int) =~= t@);
            assert(byte_len(t@) >= 2);
        }
        if t@.len() == 1 {
            assert(t@.drop_last() =~= Seq::<char>::empty());
            assert(byte_len(t@.drop_last()) == 0);
            assert(byte_len(t@) == utf8_width(t@[0]));
        }
        if t@.len() == 0 {
            assert(byte_len(t@) == 0);
        }
    }
    if t.len() >= 2 {
        true
    } else if t.len() == 1 {
        crate::text::utf8_width_exec(t[0]) > 1
    } else {
        false
    }
}

/// Classifies a trimmed text from the outside checks' answers on it.
pub fn classify_with_facts(t: &str, facts: &RuleFacts) -> (r: ContentType)
    ensures
        r@ == classify_decision(t@, *facts),
{
    let tv = chars_of(t);
    if facts.url {
        ContentType::Url
    } else if facts.email {
        ContentType::Email
    } else if facts.phone {
        ContentType::PhoneNumber
    } else if facts.id_card {
        ContentType::IdCard
    } else if facts.json {
        ContentType::Json
    } else if contains_chars(&tv, &chars_of(":")) && facts.yaml && has_key_value_line_exec(&tv) {
        ContentType::Yaml
    } else if facts.math && longer_than_one_byte(&tv) {
        ContentType::MathExpression
    } else {
        match detect_table_data(&tv) {
            Some(fmt) => ContentType::TableData(fmt),
            None => {
                if is_likely_code(&tv) {
                    ContentType::Code(detect_language(&tv))
                } else {
                    ContentType::PlainText
                }
            },
        }
    }
}

/// Runs the outside checks (regular expressions, JSON and YAML parsers) on a trimmed text.
pub fn rule_facts(t: &str) -> (r: RuleFacts)
    ensures
        r == facts_of(t@),
{
    RuleFacts {
        url: regex_matches(URL_PATTERN, t),
        email: regex_matches(EMAIL_PATTERN, t),
        phone: regex_matches(PHONE_PATTERN, t),
        id_card: regex_matches(ID_CARD_PATTERN, t),
        json: json_parses(t),
        yaml: yaml_parses(t),
        math: regex_matches(MATH_EXPR_PATTERN, t),
    }
}

/// Classifies clipboard text by the rules, after trimming surrounding whitespace.
pub fn classify_by_rules(content: &str) -> (r: ContentType)
    ensures
        r@ == classify(content@),
{
    let trimmed = trim_str(content);
    let facts = rule_facts(trimmed.as_str());
    classify_with_facts(trimmed.as_str(), &facts)
}

/// The rules decide in a fixed order on the outside checks' answers: a text the URL pattern
/// matches is a URL; otherwise one the e-mail pattern matches is an e-mail address; otherwise
/// a phone number; otherwise one the ID-card pattern `^\d{17}[\dXx]$` matches is an ID card
/// (even though its digits also read as a JSON number); otherwise a JSON document is JSON;
/// otherwise a YAML document with a "key: value" line is YAML. Conversely a text is classed
/// as one of these, or as arithmetic, a table or code, only when its own check holds.
pub proof fn law_classification_order(content: Seq<char>)
    ensures
        ({
            let t = trim(content);
            let url = regex_is_match(URL_PATTERN@, t);
            let email = regex_is_match(EMAIL_PATTERN@, t);
            let phone = regex_is_match(PHONE_PATTERN@, t);
            let id_card = regex_is_match(ID_CARD_PATTERN@, t);
            let json = json_document_parses(t);
            &&& url ==> classify(content) == ContentKind::Url
            &&& !url && email ==> classify(content) == ContentKind::Email
            &&& !url && !email && phone ==> classify(content) == ContentKind::PhoneNumber
            &&& !url && !email && !phone && id_card ==> classify(content) == ContentKind::IdCard
            &&& !url && !email && !phone && !id_card && json ==> classify(content) == ContentKind::Json
            &&& classify(content) == ContentKind::Url ==> url
            &&& classify(content) == ContentKind::Email ==> email
            &&& classify(content) == ContentKind::PhoneNumber ==> phone
            &&& classify(content) == ContentKind::IdCard ==> id_card
            &&& classify(content) == ContentKind::Json ==> json
            &&& classify(content) is PlainText ==> !url && !email && !phone && !id_card && !json
            &&& (!url && !email && !phone && !id_card && !json && yaml_document_parses(t) && contains(t, ":"@)
                && has_key_value_line(t)) ==> classify(content) == ContentKind::Yaml
            &&& classify(content) == ContentKind::Yaml ==> yaml_document_parses(t) && has_key_value_line(t)
            &&& classify(content) == ContentKind::MathExpression ==> regex_is_match(MATH_EXPR_PATTERN@, t)
            &&& classify(content) is TableData ==> detect_table(t) is Some
            &&& classify(content) is Code ==> likely_code(t)
        }),
{
}

} // verus!
