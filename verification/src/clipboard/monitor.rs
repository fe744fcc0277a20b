//! The clipboard monitor's decisions: which clipboard changes are reported (new, non-blank
//! content, outside the debounce window after the last report), how they are previewed,
//! and the events and history records made of them. Polling the system clipboard, timing,
//! storing and notifying is the caller's part; it hands in what it read and when.
use vstd::prelude::*;
use crate::actions::traits::ActionDescriptor;
use crate::classifier::{classify, classify_by_rules, ContentKind, ContentType};
use crate::foreign::{file_name_of, path_file_name, sha256_digest_hex, sha256_hex};
use crate::storage::clipboard_history::{ClipboardHistoryItem, ClipboardHistoryItemView};
use crate::text::{
    append_chars, append_str, byte_len, chars_of, copy_texts, decimal, decimal_chars, join, join_chars, opt_text,
    string_from_chars, texts, trim, trim_str, utf8_width_exec,
};

verus! {

/// The mathematical value of a `ClipboardMonitor`.
pub struct MonitorView {
    pub last_content: Seq<char>,
    pub last_image_hash: Seq<char>,
    pub last_file_list_signature: Seq<char>,
    /// When the last change was reported (or the monitor made), in milliseconds.
    pub last_change_ms: u64,
    pub debounce_ms: u64,
    pub poll_interval_ms: u64,
}

/// Watches the clipboard for new text, images and file lists.
pub struct ClipboardMonitor {
    last_content: String,
    last_image_hash: String,
    last_file_list_signature: String,
    last_change_ms: u64,
    debounce_ms: u64,
    poll_interval_ms: u64,
}

impl View for ClipboardMonitor {
    type V = MonitorView;

    closed spec fn view(&self) -> MonitorView {
        MonitorView {
            last_content: self.last_content@,
            last_image_hash: self.last_image_hash@,
            last_file_list_signature: self.last_file_list_signature@,
            last_change_ms: self.last_change_ms,
            debounce_ms: self.debounce_ms,
            poll_interval_ms: self.poll_interval_ms,
        }
    }
}

/// Whether the debounce window after the last change has passed at `now_ms` (a clock that
/// went back counts as no time passed).
pub open spec fn settled(m: MonitorView, now_ms: u64) -> bool {
    (if now_ms >= m.last_change_ms { now_ms - m.last_change_ms } else { 0 }) >= m.debounce_ms
}

/// The monitor and the text reported when `text` is read at `now_ms`: nothing for blank
/// text, for the text last reported, or inside the debounce window.
pub open spec fn text_step(m: MonitorView, text: Seq<char>, now_ms: u64) -> (MonitorView, Option<Seq<char>>) {
    if trim(text).len() == 0 || text == m.last_content || !settled(m, now_ms) {
        (m, None)
    } else {
        (MonitorView { last_content: text, last_change_ms: now_ms, ..m }, Some(text))
    }
}

/// The monitor and the image hash reported when an image is read at `now_ms`: nothing for
/// an empty image, for the image last reported, or inside the debounce window.
pub open spec fn image_step(m: MonitorView, width: u64, height: u64, hash: Seq<char>, now_ms: u64) -> (MonitorView, Option<Seq<char>>) {
    if width == 0 || height == 0 || hash == m.last_image_hash || !settled(m, now_ms) {
        (m, None)
    } else {
        (MonitorView { last_image_hash: hash, last_change_ms: now_ms, ..m }, Some(hash))
    }
}

/// The signature of a file list: its paths, one per line.
pub open spec fn signature(paths: Seq<Seq<char>>) -> Seq<char> {
    join(paths, seq!['\n'])
}

/// The monitor and whether a file list read at `now_ms` is reported: not when empty, when
/// it is the one last reported, or inside the debounce window.
pub open spec fn file_list_step(m: MonitorView, paths: Seq<Seq<char>>, now_ms: u64) -> (MonitorView, bool) {
    if paths.len() == 0 || signature(paths) == m.last_file_list_signature || !settled(m, now_ms) {
        (m, false)
    } else {
        (MonitorView { last_file_list_signature: signature(paths), last_change_ms: now_ms, ..m }, true)
    }
}

impl ClipboardMonitor {
    /// A monitor made at `now_ms`, polling every `poll_interval_ms` and reporting no two
    /// changes within `debounce_ms`.
    pub fn new(poll_interval_ms: u64, debounce_ms: u64, now_ms: u64) -> (r: ClipboardMonitor)
        ensures
            r@ == (MonitorView {
                last_content: Seq::empty(),
                last_image_hash: Seq::empty(),
                last_file_list_signature: Seq::empty(),
                last_change_ms: now_ms,
                debounce_ms,
                poll_interval_ms,
            }),
    {
        ClipboardMonitor {
            last_content: String::new(),
            last_image_hash: String::new(),
            last_file_list_signature: String::new(),
            last_change_ms: now_ms,
            debounce_ms,
            poll_interval_ms,
        }
    }

    /// The polling interval.
    pub fn poll_interval_ms(&self) -> (r: u64)
        ensures
            r == self@.poll_interval_ms,
    {
        self.poll_interval_ms
    }

    /// Whether the debounce window has passed.
    fn is_settled(&self, now_ms: u64) -> (r: bool)
        ensures
            r == settled(self@, now_ms),
    {
        let elapsed = if now_ms >= self.last_change_ms { now_ms - self.last_change_ms } else { 0 };
        elapsed >= self.debounce_ms
    }

    /// The text to report when the clipboard holds `text` at `now_ms`, if any.
    pub fn poll_text(&mut self, text: String, now_ms: u64) -> (r: Option<String>)
        ensures
            (final(self)@, opt_text(r)) == text_step(old(self)@, text@, now_ms),
    {
        let trimmed = trim_str(text.as_str());
        if chars_of(trimmed.as_str()).len() == 0 {
            return None;
        }
        if self.last_content == text {
            return None;
        }
        if !self.is_settled(now_ms) {
            return None;
        }
        self.last_content = text.clone();
        self.last_change_ms = now_ms;
        Some(text)
    }

    /// The hash of the image to report when the clipboard holds a `width` by `height` image
    /// with these pixel bytes at `now_ms`, if any. Images are told apart by the SHA-256 of
    /// their bytes.
    pub fn poll_image(&mut self, width: u64, height: u64, bytes: &[u8], now_ms: u64) -> (r: Option<String>)
        ensures
            (final(self)@, opt_text(r)) == image_step(old(self)@, width, height, sha256_hex(bytes@), now_ms),
    {
        if width == 0 || height == 0 {
            return None;
        }
        let hash = sha256_digest_hex(bytes);
        if self.last_image_hash == hash {
            return None;
        }
        if !self.is_settled(now_ms) {
            return None;
        }
        self.last_image_hash = hash.clone();
        self.last_change_ms = now_ms;
        Some(hash)
    }

    /// The file list to report when the clipboard holds `paths` at `now_ms`, if any.
    pub fn poll_file_list(&mut self, paths: Vec<String>, now_ms: u64) -> (r: Option<Vec<String>>)
        ensures
            final(self)@ == file_list_step(old(self)@, texts(paths@), now_ms).0,
            r is Some == file_list_step(old(self)@, texts(paths@), now_ms).1,
            r matches Some(v) ==> texts(v@) == texts(paths@),
    {
        if paths.len() == 0 {
            return None;
        }
        let sig = stringify_paths(&paths);
        if self.last_file_list_signature == sig {
            return None;
        }
        if !self.is_settled(now_ms) {
            return None;
        }
        self.last_file_list_signature = sig;
        self.last_change_ms = now_ms;
        Some(paths)
    }
}

/// The paths, one per line.
fn stringify_paths(paths: &Vec<String>) -> (r: String)
    ensures
        r@ == signature(texts(paths@)),
{
    crate::commands::clipboard_cmds::stringify_file_list(paths)
}

/// What the clipboard held at one poll: an image (width, height and pixel bytes) when it
/// could be read, the file list (empty when there is none), and the text when it could be
/// read.
pub struct ClipboardSnapshot {
    pub image: Option<(u64, u64, Vec<u8>)>,
    pub files: Vec<String>,
    pub text: Option<String>,
}

/// The mathematical value of a `ClipboardSnapshot`.
pub struct SnapshotView {
    pub image: Option<(u64, u64, Seq<u8>)>,
    pub files: Seq<Seq<char>>,
    pub text: Option<Seq<char>>,
}

impl View for ClipboardSnapshot {
    type V = SnapshotView;

    open spec fn view(&self) -> SnapshotView {
        SnapshotView {
            image: match self.image {
                Some((w, h, b)) => Some((w, h, b@)),
                None => None,
            },
            files: texts(self.files@),
            text: opt_text(self.text),
        }
    }
}

/// The change a poll reports, with what is recorded of it and whether the panel shows
/// itself.
pub enum PolledChange {
    /// A new image, told apart by this hash; the panel does not show itself for images.
    Image { hash: String },
    /// A new file list.
    Files { paths: Vec<String>, show: bool },
    /// New text, with its content type, whether it is recorded as sensitive, its recorded
    /// size, and its preview.
    Text { text: String, kind: ContentType, sensitive: bool, char_count: i64, preview: String, show: bool },
}

/// The mathematical value of a `PolledChange`.
pub enum ChangeView {
    Image { hash: Seq<char> },
    Files { paths: Seq<Seq<char>>, show: bool },
    Text { text: Seq<char>, kind: ContentKind, sensitive: bool, char_count: int, preview: Seq<char>, show: bool },
}

/// The value of an optional change.
pub open spec fn change_view(r: Option<PolledChange>) -> Option<ChangeView> {
    match r {
        None => None,
        Some(PolledChange::Image { hash }) => Some(ChangeView::Image { hash: hash@ }),
        Some(PolledChange::Files { paths, show }) => Some(ChangeView::Files { paths: texts(paths@), show }),
        Some(PolledChange::Text { text, kind, sensitive, char_count, preview, show }) => Some(
            ChangeView::Text { text: text@, kind: kind@, sensitive, char_count: char_count as int, preview: preview@, show },
        ),
    }
}

/// The size recorded for text: its UTF-8 length, capped at the largest `i64`.
pub open spec fn recorded_size(text: Seq<char>) -> int {
    if byte_len(text) <= i64::MAX { byte_len(text) as int } else { i64::MAX as int }
}

/// Whether content of this kind is recorded as sensitive.
pub open spec fn sensitive_kind(k: ContentKind) -> bool {
    k is PhoneNumber || k is IdCard || k is Email
}

/// The length of the preview sent with a text change.
pub const TEXT_PREVIEW_LEN: usize = 200;

/// What one poll reports: a new image first; else a new file list; else nothing while the
/// clipboard holds files; else new text, classified, with its sensitivity, size and preview.
/// The panel shows itself for a file list or text when `auto_show`, never for an image.
pub open spec fn snapshot_step(m: MonitorView, s: SnapshotView, now_ms: u64, auto_show: bool) -> (MonitorView, Option<ChangeView>) {
    let img = match s.image {
        Some((w, h, bytes)) => image_step(m, w, h, sha256_hex(bytes), now_ms),
        None => (m, None),
    };
    if img.1 is Some {
        (img.0, Some(ChangeView::Image { hash: img.1->0 }))
    } else {
        let fl = file_list_step(img.0, s.files, now_ms);
        if fl.1 {
            (fl.0, Some(ChangeView::Files { paths: s.files, show: auto_show }))
        } else if s.files.len() > 0 {
            (fl.0, None)
        } else {
            match s.text {
                None => (fl.0, None),
                Some(t) => {
                    let ts = text_step(fl.0, t, now_ms);
                    match ts.1 {
                        None => (ts.0, None),
                        Some(text) => (ts.0, Some(ChangeView::Text {
                            text,
                            kind: classify(text),
                            sensitive: sensitive_kind(classify(text)),
                            char_count: recorded_size(text),
                            preview: preview(text, TEXT_PREVIEW_LEN as nat),
                            show: auto_show,
                        })),
                    }
                },
            }
        }
    }
}

impl ClipboardMonitor {
    /// The change to report for what the clipboard holds at `now_ms`, if any; `auto_show`
    /// tells whether the trigger mode lets the panel show itself.
    pub fn poll_snapshot(&mut self, snap: &ClipboardSnapshot, now_ms: u64, auto_show: bool) -> (r: Option<PolledChange>)
        ensures
            (final(self)@, change_view(r)) == snapshot_step(old(self)@, snap@, now_ms, auto_show),
    {
        match &snap.image {
            Some((w, h, bytes)) => {
                match self.poll_image(*w, *h, bytes.as_slice(), now_ms) {
                    Some(hash) => {
                        return Some(PolledChange::Image { hash });
                    },
                    None => {},
                }
            },
            None => {},
        }
        let files = copy_texts(&snap.files);
        match self.poll_file_list(files, now_ms) {
            Some(paths) => {
                return Some(PolledChange::Files { paths, show: auto_show });
            },
            None => {},
        }
        if snap.files.len() > 0 {
            return None;
        }
        let text = match &snap.text {
            Some(t) => t.clone(),
            None => {
                return None;
            },
        };
        match self.poll_text(text, now_ms) {
            None => None,
            Some(text) => {
                let kind = classify_by_rules(text.as_str());
                let sensitive = is_sensitive_type(&kind);
                let size = char_count(text.as_str());
                let preview = make_preview(text.as_str(), TEXT_PREVIEW_LEN);
                Some(PolledChange::Text { text, kind, sensitive, char_count: size, preview, show: auto_show })
            },
        }
    }
}

/// What a poll reports, in terms of the snapshot: a new (non-empty, unseen) image wins; a
/// file list is reported only when no new image is, and is the clipboard's own non-empty
/// list not seen last time; text is reported only while the clipboard holds no files, when
/// it is not blank and not the text last reported, and it carries its own classification,
/// sensitivity (phone numbers, ID cards, e-mail addresses) and 200-character preview.
/// Nothing is reported inside the debounce window, and the panel never shows itself for an
/// image.
pub proof fn law_snapshot_reports(m: MonitorView, s: SnapshotView, now_ms: u64, auto_show: bool)
    ensures
        ({
            let r = snapshot_step(m, s, now_ms, auto_show).1;
            &&& r is Some ==> settled(m, now_ms)
            &&& s.image matches Some((w, h, b)) ==> ((w > 0 && h > 0 && sha256_hex(b) != m.last_image_hash
                && settled(m, now_ms)) ==> r == Some(ChangeView::Image { hash: sha256_hex(b) }))
            &&& r matches Some(ChangeView::Image { hash }) ==> (s.image matches Some((w, h, b)) && w > 0 && h > 0
                && hash == sha256_hex(b) && hash != m.last_image_hash)
            &&& r matches Some(ChangeView::Files { paths, show }) ==> (paths == s.files && paths.len() > 0
                && signature(paths) != m.last_file_list_signature && show == auto_show)
            &&& r matches Some(ChangeView::Text { text, kind, sensitive, char_count, preview: p, show }) ==> (
                s.files.len() == 0 && s.text == Some(text) && trim(text).len() > 0 && text != m.last_content
                && kind == classify(text) && sensitive == (kind is PhoneNumber || kind is IdCard || kind is Email)
                && p == preview(text, 200) && show == auto_show)
        }),
{
}

/// A text change reported once is not reported again while the clipboard keeps it.
pub proof fn law_text_reported_once(m: MonitorView, text: Seq<char>, t1: u64, t2: u64)
    requires
        text_step(m, text, t1).1 is Some,
    ensures
        text_step(text_step(m, text, t1).0, text, t2).1 is None,
{
}

/// No change is reported within the debounce window after the last report.
pub proof fn law_text_debounced(m: MonitorView, text: Seq<char>, now_ms: u64)
    requires
        m.last_change_ms <= now_ms,
        now_ms - m.last_change_ms < m.debounce_ms,
    ensures
        text_step(m, text, now_ms).1 is None,
        text_step(m, text, now_ms).0 == m,
{
}

/// The preview of `text`: the trimmed text when it has at most `max_len` characters, else
/// its first `max_len` characters followed by "…".
pub open spec fn preview(text: Seq<char>, max_len: nat) -> Seq<char> {
    let t = trim(text);
    if t.len() <= max_len {
        t
    } else {
        t.take(max_len as int) + seq!['…']
    }
}

/// The preview of `text` in at most `max_len` characters (and an ellipsis).
pub fn make_preview(text: &str, max_len: usize) -> (r: String)
    ensures
        r@ == preview(text@, max_len as nat),
{
    let t = chars_of(trim_str(text).as_str());
    let n = t.len();
    if n <= max_len {
        return string_from_chars(&t);
    }
    let mut out = crate::text::copy_range(&t, 0, max_len);
    out.push('…');
    assert(out@ =~= t@.take(max_len as int) + seq!['…']);
    string_from_chars(&out)
}

/// The name shown for a path: its file name when it has a non-empty one, else the path.
pub open spec fn shown_name(path: Seq<char>) -> Seq<char> {
    match path_file_name(path) {
        Some(n) => if n.len() > 0 { n } else { path },
        None => path,
    }
}

/// The names shown for the first three paths, with "…" after them when there are more.
pub open spec fn file_list_names(paths: Seq<Seq<char>>) -> Seq<Seq<char>> {
    let shown = Seq::new(if paths.len() < 3 { paths.len() } else { 3 }, |i: int| shown_name(paths[i]));
    if paths.len() > 3 { shown.push(seq!['…']) } else { shown }
}

/// The preview of a file list: the names of its first three files, one per line, and "…"
/// when there are more.
pub fn make_file_list_preview(paths: &Vec<String>) -> (r: String)
    ensures
        r@ == join(file_list_names(texts(paths@)), seq!['\n']),
{
    let ghost ps = texts(paths@);
    let mut names: Vec<Vec<char>> = Vec::new();
    let n = paths.len();
    let limit: usize = if n < 3 { n } else { 3 };
    let mut i: usize = 0;
    while i < limit
        invariant
            n == paths@.len(),
            ps == texts(paths@),
            limit == (if n < 3 { n } else { 3 }),
            i <= limit,
            names@.len() == i,
            forall|k: int| 0 <= k < i ==> #[trigger] names@[k]@ == shown_name(ps[k]),
        decreases limit - i,
    {
        let name = match file_name_of(paths[i].as_str()) {
            Some(fname) => {
                let fc = chars_of(fname.as_str());
                if fc.len() > 0 { fc } else { chars_of(paths[i].as_str()) }
            },
            None => chars_of(paths[i].as_str()),
        };
        names.push(name);
        i = i + 1;
    }
    if n > 3 {
        let mut dots: Vec<char> = Vec::new();
        dots.push('…');
        names.push(dots);
    }
    let sep: Vec<char> = vec!['\n'];
    let joined = join_chars(&names, &sep);
    assert(names@.map_values(|l: Vec<char>| l@) =~= file_list_names(ps));
    assert(sep@ =~= seq!['\n']);
    string_from_chars(&joined)
}

/// The preview of an image: "[Image <width>x<height>]".
pub fn image_preview_text(width: u64, height: u64) -> (r: String)
    ensures
        r@ == "[Image "@ + decimal(width as nat) + "x"@ + decimal(height as nat) + "]"@,
{
    let mut v: Vec<char> = Vec::new();
    append_str(&mut v, "[Image ");
    let w = decimal_chars(width);
    append_chars(&mut v, &w);
    append_str(&mut v, "x");
    let h = decimal_chars(height);
    append_chars(&mut v, &h);
    append_str(&mut v, "]");
    string_from_chars(&v)
}

/// Whether content of this type is recorded as sensitive: phone numbers, identity-card
/// numbers and e-mail addresses.
pub fn is_sensitive_type(content_type: &ContentType) -> (r: bool)
    ensures
        r == (content_type@ is PhoneNumber || content_type@ is IdCard || content_type@ is Email),
{
    match content_type {
        ContentType::PhoneNumber | ContentType::IdCard | ContentType::Email => true,
        _ => false,
    }
}

/// Whether the panel is shown by itself on a change, for this trigger mode.
pub fn should_auto_show(trigger_mode: &str) -> (r: bool)
    ensures
        r == (trigger_mode@ == "auto_popup"@ || trigger_mode@ == "both"@),
{
    crate::text::str_eq(trigger_mode, "auto_popup") || crate::text::str_eq(trigger_mode, "both")
}

/// The size recorded for text: its length in UTF-8 bytes.
pub fn char_count(text: &str) -> (r: i64)
    ensures
        r == (if byte_len(text@) <= i64::MAX { byte_len(text@) as int } else { i64::MAX as int }),
{
    let t = chars_of(text);
    let ghost ts = t@;
    let n = t.len();
    let mut total: u64 = 0;
    let mut capped = false;
    let mut k: usize = 0;
    assert(ts.take(0) =~= Seq::<char>::empty());
    while k < n
        invariant
            n == ts.len(),
            t@ == ts,
            k <= n,
            !capped ==> total == byte_len(ts.take(k as int)) && total <= i64::MAX,
            capped ==> byte_len(ts.take(k as int)) > i64::MAX,
        decreases n - k,
    {
        assert(ts.take(k as int + 1).drop_last() =~= ts.take(k as int));
        let w = utf8_width_exec(t[k]) as u64;
        if !capped {
            if total > (i64::MAX as u64) - w {
                capped = true;
            } else {
                total = total + w;
            }
        }
        k = k + 1;
    }
    assert(ts.take(n as int) =~= ts);
    if capped {
        i64::MAX
    } else {
        total as i64
    }
}

/// The history record made for a change stored under `id`, created at `created_at`; it is
/// never pinned.
pub fn build_history_item(
    id: i64,
    content: Option<String>,
    image_path: Option<String>,
    content_type: String,
    source_app: Option<String>,
    char_count: Option<i64>,
    is_sensitive: bool,
    created_at: String,
) -> (r: ClipboardHistoryItem)
    ensures
        r@ == (ClipboardHistoryItemView {
            id,
            content: opt_text(content),
            image_path: opt_text(image_path),
            content_type: content_type@,
            source_app: opt_text(source_app),
            char_count,
            created_at: created_at@,
            is_pinned: false,
            is_sensitive,
        }),
{
    ClipboardHistoryItem { id, content, image_path, content_type, source_app, char_count, created_at, is_pinned: false, is_sensitive }
}

/// A clipboard change, as sent to the panel.
#[derive(Debug, Clone)]
pub struct ClipboardChangeEvent {
    pub content: String,
    pub content_type: ContentType,
    pub preview: String,
    pub actions: Vec<ActionDescriptor>,
    pub timestamp: u64,
    pub item: Option<ClipboardHistoryItem>,
}

/// How long the name of the foreground application is reused before it is asked again.
pub const FRONT_APP_TTL_MS: u64 = 5000;

/// The last foreground application name asked for, and when (milliseconds).
pub struct FrontAppCache {
    pub value: Option<String>,
    pub fetched_at_ms: Option<u64>,
}

impl FrontAppCache {
    /// Nothing asked yet.
    pub fn new() -> (r: FrontAppCache)
        ensures
            r.value is None && r.fetched_at_ms is None,
    {
        FrontAppCache { value: None, fetched_at_ms: None }
    }

    /// The name to reuse at `now_ms`: the one asked less than five seconds ago, if any (a
    /// clock that went back counts as no time passed).
    pub fn cached(&self, now_ms: u64) -> (r: Option<Option<String>>)
        ensures
            match self.fetched_at_ms {
                Some(t) => {
                    let elapsed = if now_ms >= t { now_ms - t } else { 0 };
                    if elapsed < FRONT_APP_TTL_MS {
                        r matches Some(v) && opt_text(v) == opt_text(self.value)
                    } else {
                        r is None
                    }
                },
                None => r is None,
            },
    {
        match self.fetched_at_ms {
            Some(t) => {
                let elapsed = if now_ms >= t { now_ms - t } else { 0 };
                if elapsed < FRONT_APP_TTL_MS {
                    Some(crate::text::copy_opt_text(&self.value))
                } else {
                    None
                }
            },
            None => None,
        }
    }

    /// Remember the name just asked for at `now_ms`.
    pub fn store(&mut self, fresh: &Option<String>, now_ms: u64)
        ensures
            opt_text(final(self).value) == opt_text(*fresh),
            final(self).fetched_at_ms == Some(now_ms),
    {
        self.value = crate::text::copy_opt_text(fresh);
        self.fetched_at_ms = Some(now_ms);
    }
}

/// A preview has at most one character more than its limit (the ellipsis).
pub proof fn law_preview_fits(text: Seq<char>, max_len: nat)
    ensures
        preview(text, max_len).len() <= max_len + 1,
{
}

} // verus!
