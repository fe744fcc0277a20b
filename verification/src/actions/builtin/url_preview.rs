//! Markdown links for URLs, titled from the page.
use vstd::prelude::*;
use crate::actions::traits::{kinds_of, ActionInfo, InfoView};
use crate::classifier::{ContentKind, ContentType};
use crate::actions::traits::{ActionInput, ActionOutput};
use crate::text::{
    append_chars, append_str, chars_of, copy_range, find, find_chars, lemma_find_contains,
    matches_at, string_from_chars, trim, trim_chars, trim_str,
};

verus! {

/// The "URL → Markdown" action.
pub struct UrlToMarkdownAction;

impl UrlToMarkdownAction {
    /// What the registry knows of this action.
    pub open spec fn info_spec(&self) -> InfoView {
        InfoView {
            id: "url_to_markdown"@,
            display_name: "URL → Markdown"@,
            display_name_en: "URL → Markdown"@,
            description: "抓取网页标题，生成 Markdown 链接"@,
            description_en: "Fetch page title and generate a Markdown link"@,
            supported_types: seq![ContentKind::Url],
            requires_model: false,
            estimated_duration_ms: 2000,
        }
    }

    /// Unique id.
    pub fn id(&self) -> (r: &'static str)
        ensures
            r@ == self.info_spec().id,
    {
        "url_to_markdown"
    }

    /// Display name.
    pub fn display_name(&self) -> (r: &'static str)
        ensures
            r@ == self.info_spec().display_name,
    {
        "URL → Markdown"
    }

    /// Display name in English.
    pub fn display_name_en(&self) -> (r: &'static str)
        ensures
            r@ == self.info_spec().display_name_en,
    {
        "URL → Markdown"
    }

    /// Description.
    pub fn description(&self) -> (r: &'static str)
        ensures
            r@ == self.info_spec().description,
    {
        "抓取网页标题，生成 Markdown 链接"
    }

    /// Description in English.
    pub fn description_en(&self) -> (r: &'static str)
        ensures
            r@ == self.info_spec().description_en,
    {
        "Fetch page title and generate a Markdown link"
    }

    /// The content types this action handles.
    pub fn supported_types(&self) -> (r: Vec<ContentType>)
        ensures
            kinds_of(r@) == self.info_spec().supported_types,
    {
        let mut v: Vec<ContentType> = Vec::new();
        v.push(ContentType::Url);
        assert(kinds_of(v@) =~= self.info_spec().supported_types);
        v
    }

    /// Whether this action needs an inference backend.
    pub fn requires_model(&self) -> (r: bool)
        ensures
            r == self.info_spec().requires_model,
    {
        false
    }

    /// Expected duration, in milliseconds.
    pub fn estimated_duration_ms(&self) -> (r: u64)
        ensures
            r == self.info_spec().estimated_duration_ms,
    {
        2000
    }

    /// What the registry keeps of this action.
    pub fn info(&self) -> (r: ActionInfo)
        ensures
            r@ == self.info_spec(),
    {
        ActionInfo {
            id: self.id().to_owned(),
            display_name: self.display_name().to_owned(),
            display_name_en: self.display_name_en().to_owned(),
            description: self.description().to_owned(),
            description_en: self.description_en().to_owned(),
            supported_types: self.supported_types(),
            requires_model: self.requires_model(),
            estimated_duration_ms: self.estimated_duration_ms(),
        }
    }
}


/// The first occurrence of `a` in `s`, or else the first of `b`.
pub open spec fn find_either(s: Seq<char>, a: Seq<char>, b: Seq<char>) -> Option<int> {
    match find(s, a) {
        Some(i) => Some(i),
        None => find(s, b),
    }
}

/// The page title in an HTML text: what stands between the first "<title>" (or, failing
/// that, "<TITLE>") and the next "</title>" (or "</TITLE>"), trimmed, when not empty.
pub open spec fn title_of(body: Seq<char>) -> Option<Seq<char>> {
    match find_either(body, "<title>"@, "<TITLE>"@) {
        None => None,
        Some(i) => {
            let rest = body.skip(i + 7);
            match find_either(rest, "</title>"@, "</TITLE>"@) {
                None => None,
                Some(e) => {
                    let t = trim(rest.take(e));
                    if t.len() > 0 {
                        Some(t)
                    } else {
                        None
                    }
                },
            }
        },
    }
}

/// The first occurrence of `a` in `s`, or else the first of `b`.
fn find_either_exec(s: &[char], a: &str, b: &str) -> (r: Option<usize>)
    ensures
        r matches Some(i) ==> find_either(s@, a@, b@) == Some(i as int) && (matches_at(
            s@,
            a@,
            i as int,
        ) || matches_at(s@, b@, i as int)),
        r is None ==> find_either(s@, a@, b@) is None,
{
    let av = chars_of(a);
    let bv = chars_of(b);
    proof {
        lemma_find_contains(s@, a@);
        lemma_find_contains(s@, b@);
    }
    match find_chars(s, &av) {
        Some(i) => {
            assert(matches_at(s@, a@, i as int));
            Some(i)
        },
        None => {
            let r = find_chars(s, &bv);
            if let Some(i) = r {
                assert(matches_at(s@, b@, i as int));
            }
            r
        },
    }
}

/// The page title in an HTML text.
pub fn extract_title(body: &str) -> (r: Option<String>)
    ensures
        r is Some == title_of(body@) is Some,
        r matches Some(t) ==> t@ == title_of(body@)->0,
{
    proof {
        reveal_strlit("<title>");
        reveal_strlit("<TITLE>");
        assert("<title>"@.len() == 7);
        assert("<TITLE>"@.len() == 7);
    }
    let text = chars_of(body);
    let open = match find_either_exec(&text, "<title>", "<TITLE>") {
        Some(i) => i,
        None => {
            return None;
        },
    };
    let n = text.len();
    assert(open + 7 <= n);
    let start = open + 7;
    let rest = copy_range(&text, start, text.len());
    assert(rest@ =~= body@.skip(open + 7));
    let close = match find_either_exec(&rest, "</title>", "</TITLE>") {
        Some(e) => e,
        None => {
            return None;
        },
    };
    proof {
        reveal_strlit("</title>");
        reveal_strlit("</TITLE>");
    }
    let inner = copy_range(&rest, 0, close);
    assert(inner@ =~= rest@.take(close as int));
    let t = trim_chars(&inner);
    if t.len() > 0 {
        Some(string_from_chars(&t))
    } else {
        None
    }
}

/// A Markdown link: "[title](url)".
pub open spec fn markdown_link(title: Seq<char>, url: Seq<char>) -> Seq<char> {
    "["@ + title + "]("@ + url + ")"@
}

/// The title used for a URL: the page's title when the page was fetched and has one, else the
/// URL itself.
pub open spec fn link_title(url: Seq<char>, page: Option<Seq<char>>) -> Seq<char> {
    match page {
        Some(body) => match title_of(body) {
            Some(t) => t,
            None => url,
        },
        None => url,
    }
}

impl UrlToMarkdownAction {
    /// The URL that the content names: the content, trimmed.
    pub fn target_url(&self, input: &ActionInput) -> (r: String)
        ensures
            r@ == trim(input.content@),
    {
        trim_str(input.content.as_str())
    }

    /// A Markdown link to the URL in `input`, titled from `page`, the page's HTML when it
    /// could be fetched.
    pub fn link_output(&self, input: &ActionInput, page: Option<String>) -> (r: ActionOutput)
        ensures
            r.result@ == markdown_link(
                link_title(trim(input.content@), match page {
                    Some(p) => Some(p@),
                    None => None,
                }),
                trim(input.content@),
            ),
            r.result_type@ == "markdown"@,
    {
        let url = self.target_url(input);
        let title = match page {
            Some(body) => match extract_title(body.as_str()) {
                Some(t) => t,
                None => url.clone(),
            },
            None => url.clone(),
        };
        let mut md: Vec<char> = Vec::new();
        append_str(&mut md, "[");
        append_str(&mut md, title.as_str());
        append_str(&mut md, "](");
        append_str(&mut md, url.as_str());
        append_str(&mut md, ")");
        ActionOutput { result: string_from_chars(&md), result_type: "markdown".to_owned() }
    }
}

/// A page that starts with "<title>", then a text with no '<' in it, then "</title>" (and
/// anything after) has that text, trimmed, as its title when it is not blank, and no title
/// when it is.
pub proof fn law_title_between_tags(t: Seq<char>, tail: Seq<char>)
    requires
        !t.contains('<'),
    ensures
        ({
            let body = "<title>"@ + t + "</title>"@ + tail;
            &&& trim(t).len() > 0 ==> title_of(body) == Some(trim(t))
            &&& trim(t).len() == 0 ==> title_of(body) is None
        }),
{
    reveal_strlit("<title>");
    reveal_strlit("</title>");
    let open = "<title>"@;
    let close = "</title>"@;
    let body = open + t + close + tail;
    assert(matches_at(body, open, 0)) by {
        assert(body.subrange(0, 7) =~= open);
    }
    assert(find(body, open) == Some(0int));
    let rest = body.skip(7);
    assert(rest =~= t + close + tail);
    let n = t.len() as int;
    assert(matches_at(rest, close, n)) by {
        assert(rest.subrange(n, n + 8) =~= close);
    }
    crate::text::lemma_find_from(rest, close, 0);
    assert forall|k: int| 0 <= k < n implies !matches_at(rest, close, k) by {
        if matches_at(rest, close, k) {
            assert(rest.subrange(k, k + 8)[0] == close[0]);
            assert(rest[k] == t[k]);
            assert(t.contains('<'));
        }
    }
    assert(find(rest, close) == Some(n));
    assert(rest.take(n) =~= t);
}

} // verus!
