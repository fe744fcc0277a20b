//! The history commands: the guards on their arguments, the cached application icons, and
//! the file previews. Reading files and running system tools is the caller's part.
use vstd::prelude::*;
use crate::encoding::{data_url, data_url_of};
use crate::foreign::{alphanumeric, is_alphanumeric};
use crate::text::{chars_of, concat3, string_from_chars, str_eq};

verus! {

/// The guard on the argument of the size-based counting command.
pub fn count_over_size_guard(min_bytes: i64) -> (r: Result<(), String>)
    ensures
        match r {
            Ok(()) => min_bytes >= 0,
            Err(e) => min_bytes < 0 && e@ == "min_bytes 必须 >= 0"@,
        },
{
    if min_bytes < 0 {
        Err("min_bytes 必须 >= 0".to_owned())
    } else {
        Ok(())
    }
}

/// The guard on the argument of the size-based clearing command.
pub fn clear_over_size_guard(min_bytes: i64) -> (r: Result<(), String>)
    ensures
        match r {
            Ok(()) => min_bytes > 0,
            Err(e) => min_bytes <= 0 && e@ == "min_bytes 必须 > 0"@,
        },
{
    if min_bytes <= 0 {
        Err("min_bytes 必须 > 0".to_owned())
    } else {
        Ok(())
    }
}

/// `c` kept in a file name, anything else replaced by '_'.
pub open spec fn safe_char(c: char) -> char {
    if alphanumeric(c) || c == '-' || c == '_' {
        c
    } else {
        '_'
    }
}

/// The application name made safe as a file name.
pub open spec fn safe_name(name: Seq<char>) -> Seq<char> {
    Seq::new(name.len(), |i: int| safe_char(name[i]))
}

/// The name of the cached icon of an application: its safe name with ".png".
pub fn icon_file_name(app_name: &str) -> (r: String)
    ensures
        r@ == safe_name(app_name@) + ".png"@,
{
    let cs = chars_of(app_name);
    let mut out: Vec<char> = Vec::new();
    let n = cs.len();
    let mut i: usize = 0;
    while i < n
        invariant
            n == cs@.len(),
            cs@ == app_name@,
            i <= n,
            out@ == safe_name(app_name@).take(i as int),
        decreases n - i,
    {
        let c = cs[i];
        let keep = is_alphanumeric(c) || c == '-' || c == '_';
        if keep {
            out.push(c);
        } else {
            out.push('_');
        }
        assert(out@ =~= safe_name(app_name@).take(i as int + 1));
        i = i + 1;
    }
    assert(safe_name(app_name@).take(n as int) =~= safe_name(app_name@));
    crate::text::append_str(&mut out, ".png");
    string_from_chars(&out)
}

/// The extensions whose files are previewed as text.
pub open spec fn text_extension(e: Seq<char>) -> bool {
    ||| e == "txt"@ ||| e == "md"@ ||| e == "markdown"@ ||| e == "json"@ ||| e == "yaml"@
    ||| e == "yml"@ ||| e == "toml"@ ||| e == "xml"@ ||| e == "csv"@ ||| e == "tsv"@
    ||| e == "log"@ ||| e == "ini"@ ||| e == "conf"@ ||| e == "cfg"@ ||| e == "sh"@
    ||| e == "zsh"@ ||| e == "bash"@ ||| e == "py"@ ||| e == "js"@ ||| e == "jsx"@
    ||| e == "ts"@ ||| e == "tsx"@ ||| e == "c"@ ||| e == "h"@ ||| e == "cpp"@
    ||| e == "hpp"@ ||| e == "java"@ ||| e == "go"@ ||| e == "rs"@ ||| e == "swift"@
    ||| e == "css"@ ||| e == "scss"@ ||| e == "html"@ ||| e == "sql"@
}

/// Whether a file with this (lower-cased) extension is previewed as text.
pub fn is_text_previewable(extension: Option<&str>) -> (r: bool)
    ensures
        r == match extension {
            Some(e) => text_extension(e@),
            None => false,
        },
{
    match extension {
        Some(e) => {
            str_eq(e, "txt") ||
            str_eq(e, "md") ||
            str_eq(e, "markdown") ||
            str_eq(e, "json") ||
            str_eq(e, "yaml") ||
            str_eq(e, "yml") ||
            str_eq(e, "toml") ||
            str_eq(e, "xml") ||
            str_eq(e, "csv") ||
            str_eq(e, "tsv") ||
            str_eq(e, "log") ||
            str_eq(e, "ini") ||
            str_eq(e, "conf") ||
            str_eq(e, "cfg") ||
            str_eq(e, "sh") ||
            str_eq(e, "zsh") ||
            str_eq(e, "bash") ||
            str_eq(e, "py") ||
            str_eq(e, "js") ||
            str_eq(e, "jsx") ||
            str_eq(e, "ts") ||
            str_eq(e, "tsx") ||
            str_eq(e, "c") ||
            str_eq(e, "h") ||
            str_eq(e, "cpp") ||
            str_eq(e, "hpp") ||
            str_eq(e, "java") ||
            str_eq(e, "go") ||
            str_eq(e, "rs") ||
            str_eq(e, "swift") ||
            str_eq(e, "css") ||
            str_eq(e, "scss") ||
            str_eq(e, "html") ||
            str_eq(e, "sql")
        },
        None => false,
    }
}

/// The MIME type of an image file with this (lower-cased) extension, if it is one.
pub open spec fn image_mime(e: Seq<char>) -> Option<Seq<char>> {
    if e == "png"@ {
        Some("image/png"@)
    } else if e == "jpg"@ || e == "jpeg"@ {
        Some("image/jpeg"@)
    } else if e == "gif"@ {
        Some("image/gif"@)
    } else if e == "webp"@ {
        Some("image/webp"@)
    } else if e == "bmp"@ {
        Some("image/bmp"@)
    } else if e == "svg"@ {
        Some("image/svg+xml"@)
    } else {
        None
    }
}

/// The MIME type of an image file with this (lower-cased) extension, if it is one.
pub fn image_mime_for_extension(extension: Option<&str>) -> (r: Option<&'static str>)
    ensures
        match extension {
            Some(e) => match r {
                Some(m) => image_mime(e@) == Some(m@),
                None => image_mime(e@) is None,
            },
            None => r is None,
        },
{
    match extension {
        Some(e) => {
            if str_eq(e, "png") {
                Some("image/png")
            } else if str_eq(e, "jpg") || str_eq(e, "jpeg") {
                Some("image/jpeg")
            } else if str_eq(e, "gif") {
                Some("image/gif")
            } else if str_eq(e, "webp") {
                Some("image/webp")
            } else if str_eq(e, "bmp") {
                Some("image/bmp")
            } else if str_eq(e, "svg") {
                Some("image/svg+xml")
            } else {
                None
            }
        },
        None => None,
    }
}

/// How a file is previewed.
#[derive(Debug, Clone)]
pub enum PreviewKind {
    /// An image, shown from a data URL of this MIME type.
    Image(&'static str),
    /// A text file, shown from its first bytes.
    Text,
    /// Anything else, shown by its icon.
    Icon,
}

/// How a file (or a directory, `is_dir`) with this lower-cased extension is previewed:
/// images by their content, text files by their first bytes, the rest by an icon.
pub fn preview_kind(is_dir: bool, extension: Option<&str>) -> (r: PreviewKind)
    ensures
        match r {
            PreviewKind::Image(m) => !is_dir && (extension matches Some(e) && image_mime(e@) == Some(m@)),
            PreviewKind::Text => !is_dir && (extension matches Some(e) && image_mime(e@) is None && text_extension(e@)),
            PreviewKind::Icon => is_dir || match extension {
                Some(e) => image_mime(e@) is None && !text_extension(e@),
                None => true,
            },
        },
{
    if !is_dir {
        if let Some(m) = image_mime_for_extension(extension) {
            return PreviewKind::Image(m);
        }
        if is_text_previewable(extension) {
            return PreviewKind::Text;
        }
    }
    PreviewKind::Icon
}

/// The preview of a file.
#[derive(Debug, Clone)]
pub struct FilePreviewPayload {
    pub path: String,
    pub file_name: String,
    pub extension: Option<String>,
    /// "image", "text" or "icon".
    pub kind: String,
    pub data_url: Option<String>,
    pub text: Option<String>,
    pub truncated: bool,
    pub is_dir: bool,
}

/// The message for a file that is not there.
pub fn missing_file_message(path: &str) -> (r: String)
    ensures
        r@ == "文件不存在: "@ + path@,
{
    proof {
        reveal_strlit("");
    }
    concat3("文件不存在: ", path, "")
}

/// The preview of an image file from its bytes.
pub fn image_preview(path: String, file_name: String, extension: Option<String>, mime: &str, data: &[u8]) -> (r: FilePreviewPayload)
    ensures
        r.path@ == path@ && r.file_name@ == file_name@ && crate::text::opt_text(r.extension) == crate::text::opt_text(extension),
        r.kind@ == "image"@,
        r.data_url matches Some(u) && u@ == data_url(mime@, data@),
        r.text is None && !r.truncated && !r.is_dir,
{
    let url = data_url_of(mime, data);
    FilePreviewPayload { path, file_name, extension, kind: "image".to_owned(), data_url: Some(url), text: None, truncated: false, is_dir: false }
}

/// The text shown of a file: its first bytes with NUL characters turned into spaces.
pub open spec fn shown_text(text: Seq<char>) -> Seq<char> {
    Seq::new(text.len(), |i: int| if text[i] == '\0' { ' ' } else { text[i] })
}

/// The preview of a text file from its first `max_bytes` bytes decoded (`text`) and its
/// size: truncated when the file is longer than what was read.
pub fn text_preview(path: String, file_name: String, extension: Option<String>, text: &str, file_len: u64, max_bytes: u64) -> (r: FilePreviewPayload)
    ensures
        r.path@ == path@ && r.file_name@ == file_name@ && crate::text::opt_text(r.extension) == crate::text::opt_text(extension),
        r.kind@ == "text"@,
        r.text matches Some(t) && t@ == shown_text(text@),
        r.truncated == (file_len > max_bytes),
        r.data_url is None && !r.is_dir,
{
    let cs = chars_of(text);
    let mut out: Vec<char> = Vec::new();
    let n = cs.len();
    let mut i: usize = 0;
    while i < n
        invariant
            n == cs@.len(),
            cs@ == text@,
            i <= n,
            out@ == shown_text(text@).take(i as int),
        decreases n - i,
    {
        if cs[i] == '\0' {
            out.push(' ');
        } else {
            out.push(cs[i]);
        }
        assert(out@ =~= shown_text(text@).take(i as int + 1));
        i = i + 1;
    }
    assert(shown_text(text@).take(n as int) =~= shown_text(text@));
    FilePreviewPayload {
        path,
        file_name,
        extension,
        kind: "text".to_owned(),
        data_url: None,
        text: Some(string_from_chars(&out)),
        truncated: file_len > max_bytes,
        is_dir: false,
    }
}

/// The preview of anything else: its icon.
pub fn icon_preview(path: String, file_name: String, extension: Option<String>, is_dir: bool) -> (r: FilePreviewPayload)
    ensures
        r.path@ == path@ && r.file_name@ == file_name@ && crate::text::opt_text(r.extension) == crate::text::opt_text(extension),
        r.kind@ == "icon"@,
        r.data_url is None && r.text is None && !r.truncated && r.is_dir == is_dir,
{
    FilePreviewPayload { path, file_name, extension, kind: "icon".to_owned(), data_url: None, text: None, truncated: false, is_dir }
}

/// Where an application bundle is looked for first: the applications folders, in order.
pub fn app_bundle_candidates(app_name: &str) -> (r: Vec<String>)
    ensures
        r@.len() == 3,
        r@[0]@ == "/Applications/"@ + app_name@ + ".app"@,
        r@[1]@ == "/System/Applications/"@ + app_name@ + ".app"@,
        r@[2]@ == "/System/Applications/Utilities/"@ + app_name@ + ".app"@,
{
    let mut v: Vec<String> = Vec::new();
    v.push(concat3("/Applications/", app_name, ".app"));
    v.push(concat3("/System/Applications/", app_name, ".app"));
    v.push(concat3("/System/Applications/Utilities/", app_name, ".app"));
    v
}

/// The Spotlight query that finds an application by its display name.
pub fn app_search_query(app_name: &str) -> (r: String)
    ensures
        r@ == "kMDItemKind == 'Application' && kMDItemDisplayName == '"@ + app_name@ + "'"@,
{
    concat3("kMDItemKind == 'Application' && kMDItemDisplayName == '", app_name, "'")
}

/// The application path the search printed: its first line, trimmed, when not empty;
/// "未找到应用: <name>" otherwise.
pub fn found_app_path(output: &str, app_name: &str) -> (r: Result<String, String>)
    ensures
        match r {
            Ok(p) => crate::text::lines(output@).len() > 0 && p@ == crate::text::trim(crate::text::lines(output@)[0])
                && p@.len() > 0,
            Err(e) => (crate::text::lines(output@).len() == 0 || crate::text::trim(crate::text::lines(output@)[0]).len() == 0)
                && e@ == "未找到应用: "@ + app_name@,
        },
{
    proof {
        reveal_strlit("");
    }
    let cs = chars_of(output);
    let ls = crate::text::lines_of(&cs);
    proof {
        assert(ls@.map_values(|l: Vec<char>| l@).len() == ls@.len());
    }
    if ls.len() > 0 {
        assert(ls@.map_values(|l: Vec<char>| l@)[0] == ls@[0]@);
        let first = crate::text::trim_chars(&ls[0]);
        if first.len() > 0 {
            return Ok(string_from_chars(&first));
        }
    }
    Err(concat3("未找到应用: ", app_name, ""))
}

/// The bundle's property list, which names its icon file.
pub fn info_plist_path(app_path: &str) -> (r: String)
    ensures
        r@ == app_path@ + "/Contents/Info.plist"@,
{
    proof {
        reveal_strlit("");
    }
    concat3(app_path, "/Contents/Info.plist", "")
}

/// The icon file a bundle names: the name itself when it ends with ".icns", else with
/// ".icns" added; inside the bundle's resources.
pub fn icon_path(app_path: &str, icon_name: &str) -> (r: String)
    ensures
        r@ == app_path@ + "/Contents/Resources/"@ + (if crate::text::ends_with(icon_name@, ".icns"@) {
            icon_name@
        } else {
            icon_name@ + ".icns"@
        }),
{
    proof {
        reveal_strlit("");
    }
    let ic = chars_of(icon_name);
    let ext = chars_of(".icns");
    let file = if crate::text::ends_with_chars(&ic, &ext) {
        icon_name.to_owned()
    } else {
        concat3(icon_name, ".icns", "")
    };
    concat3(app_path, "/Contents/Resources/", file.as_str())
}

} // verus!
