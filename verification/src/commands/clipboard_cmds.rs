//! The clipboard commands: what reading the clipboard yields, and what may be written to
//! it. Talking to the system clipboard is the caller's part.
use vstd::prelude::*;
use crate::classifier::{ContentType, ContentKind, classify, classify_by_rules};
use crate::encoding::{data_url, data_url_of};
use crate::text::{chars_of, join, join_chars, texts, trim, trim_str, string_from_chars};

verus! {

/// The content of the clipboard, classified.
#[derive(Debug, Clone)]
pub struct ClipboardResult {
    pub content: String,
    pub content_type: ContentType,
}

/// The views of the lines joined.
pub open spec fn joined_lines(paths: Seq<Seq<char>>) -> Seq<char> {
    join(paths, seq!['\n'])
}

/// The paths of a file list, one per line.
pub fn stringify_file_list(paths: &Vec<String>) -> (r: String)
    ensures
        r@ == joined_lines(texts(paths@)),
{
    let mut parts: Vec<Vec<char>> = Vec::new();
    let n = paths.len();
    let mut i: usize = 0;
    while i < n
        invariant
            n == paths@.len(),
            i <= n,
            parts@.len() == i,
            forall|k: int| 0 <= k < i ==> #[trigger] parts@[k]@ == texts(paths@)[k],
        decreases n - i,
    {
        parts.push(chars_of(paths[i].as_str()));
        i = i + 1;
    }
    let sep: Vec<char> = vec!['\n'];
    let joined = join_chars(&parts, &sep);
    proof {
        assert(parts@.map_values(|l: Vec<char>| l@) =~= texts(paths@));
        assert(sep@ =~= seq!['\n']);
    }
    string_from_chars(&joined)
}

/// A file list on the clipboard: its paths, one per line, as a file list.
pub fn clipboard_result_for_files(paths: &Vec<String>) -> (r: ClipboardResult)
    ensures
        r.content@ == joined_lines(texts(paths@)),
        r.content_type@ == ContentKind::FileList,
{
    ClipboardResult { content: stringify_file_list(paths), content_type: ContentType::FileList }
}

/// Text on the clipboard, classified; "剪贴板为空" when it is blank.
pub fn clipboard_result_for_text(text: String) -> (r: Result<ClipboardResult, String>)
    ensures
        match r {
            Ok(c) => trim(text@).len() > 0 && c.content@ == text@ && c.content_type@ == classify(text@),
            Err(e) => trim(text@).len() == 0 && e@ == "剪贴板为空"@,
        },
{
    let trimmed = trim_str(text.as_str());
    if chars_of(trimmed.as_str()).len() == 0 {
        return Err("剪贴板为空".to_owned());
    }
    let content_type = classify_by_rules(text.as_str());
    Ok(ClipboardResult { content: text, content_type })
}

/// The trimmed, non-empty paths of `paths` in their order.
pub open spec fn kept_paths(paths: Seq<Seq<char>>) -> Seq<Seq<char>>
    decreases paths.len(),
{
    if paths.len() == 0 {
        Seq::empty()
    } else {
        let rest = kept_paths(paths.drop_last());
        if trim(paths.last()).len() > 0 {
            rest.push(trim(paths.last()))
        } else {
            rest
        }
    }
}

/// The paths to put on the clipboard: each trimmed, blank ones left out; refused with
/// "没有可写入剪贴板的文件" when none is left.
pub fn normalize_file_paths(paths: &Vec<String>) -> (r: Result<Vec<String>, String>)
    ensures
        match r {
            Ok(v) => texts(v@) == kept_paths(texts(paths@)) && v@.len() > 0,
            Err(e) => kept_paths(texts(paths@)).len() == 0 && e@ == "没有可写入剪贴板的文件"@,
        },
{
    let ghost all = texts(paths@);
    let mut out: Vec<String> = Vec::new();
    let n = paths.len();
    let mut i: usize = 0;
    while i < n
        invariant
            n == paths@.len(),
            all == texts(paths@),
            i <= n,
            texts(out@) == kept_paths(all.take(i as int)),
        decreases n - i,
    {
        assert(all.take(i as int + 1).drop_last() == all.take(i as int));
        let t = trim_str(paths[i].as_str());
        if chars_of(t.as_str()).len() > 0 {
            out.push(t);
            assert(texts(out@) =~= kept_paths(all.take(i as int)).push(trim(all[i as int])));
        }
        i = i + 1;
    }
    assert(all.take(n as int) == all);
    if out.len() == 0 {
        Err("没有可写入剪贴板的文件".to_owned())
    } else {
        Ok(out)
    }
}

/// An image file's bytes as a PNG data URL.
pub fn png_data_url(data: &[u8]) -> (r: String)
    ensures
        r@ == data_url("image/png"@, data@),
{
    data_url_of("image/png", data)
}

} // verus!
