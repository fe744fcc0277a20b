//! The clipboard history: its records, the statements that read and change them, and
//! what is made of what those statements give back.
use vstd::prelude::*;
use crate::text::{opt_text, copy_opt_text, concat3, decimal, decimal_chars, decimal_string, starts_with, starts_with_chars, chars_of, append_chars, append_str, string_from_chars, join, join_chars};
use crate::storage::database::{
    SqlValue, SqlValueView, QueryOutcome, decode_failure, decode_int, decode_opt_int, decode_text,
    decode_opt_text, decode_flag, int_value, opt_int_value, text_value, opt_text_value, flag_value,
    row_view, RowRecord, query_records, record_views, decode_records,
};

verus! {

/// A clipboard history record.
#[derive(Debug, Clone)]
pub struct ClipboardHistoryItem {
    pub id: i64,
    pub content: Option<String>,
    pub image_path: Option<String>,
    pub content_type: String,
    pub source_app: Option<String>,
    pub char_count: Option<i64>,
    pub created_at: String,
    pub is_pinned: bool,
    pub is_sensitive: bool,
}

/// The mathematical value of a `ClipboardHistoryItem`.
pub struct ClipboardHistoryItemView {
    pub id: i64,
    pub content: Option<Seq<char>>,
    pub image_path: Option<Seq<char>>,
    pub content_type: Seq<char>,
    pub source_app: Option<Seq<char>>,
    pub char_count: Option<i64>,
    pub created_at: Seq<char>,
    pub is_pinned: bool,
    pub is_sensitive: bool,
}

impl View for ClipboardHistoryItem {
    type V = ClipboardHistoryItemView;

    open spec fn view(&self) -> ClipboardHistoryItemView {
        ClipboardHistoryItemView {
            id: self.id,
            content: opt_text(self.content),
            image_path: opt_text(self.image_path),
            content_type: self.content_type@,
            source_app: opt_text(self.source_app),
            char_count: self.char_count,
            created_at: self.created_at@,
            is_pinned: self.is_pinned,
            is_sensitive: self.is_sensitive,
        }
    }
}

impl ClipboardHistoryItem {
    /// A copy of this value.
    pub fn duplicate(&self) -> (r: ClipboardHistoryItem)
        ensures
            r@ == self@,
    {
        let r = ClipboardHistoryItem {
            id: self.id,
            content: copy_opt_text(&self.content),
            image_path: copy_opt_text(&self.image_path),
            content_type: self.content_type.clone(),
            source_app: copy_opt_text(&self.source_app),
            char_count: self.char_count,
            created_at: self.created_at.clone(),
            is_pinned: self.is_pinned,
            is_sensitive: self.is_sensitive,
        };
        r
    }
}

/// Lists the history, newest first, one record per distinct content.
pub const LIST_HISTORY_SQL: &'static str = "WITH ranked AS (\n                 SELECT id, content, image_path, content_type, source_app, char_count, created_at, is_pinned, is_sensitive,\n                        ROW_NUMBER() OVER (\n                            PARTITION BY content_type, COALESCE(image_path, ''), COALESCE(content, '')\n                            ORDER BY created_at DESC, id DESC\n                        ) AS rn\n                 FROM clipboard_history\n             )\n             SELECT id, content, image_path, content_type, source_app, char_count, created_at, is_pinned, is_sensitive\n             FROM ranked\n             WHERE rn = 1\n             ORDER BY created_at DESC, id DESC\n             LIMIT ?1 OFFSET ?2";

/// Deletes the records that are not pinned.
pub const CLEAR_UNPINNED_SQL: &'static str = "DELETE FROM clipboard_history WHERE is_pinned = 0";

/// Counts the records.
pub const COUNT_HISTORY_SQL: &'static str = "SELECT COUNT(*) FROM clipboard_history";

/// The record in a row of the nine history columns, when every column decodes.
pub open spec fn history_item_of(row: Seq<SqlValueView>) -> Option<ClipboardHistoryItemView> {
    if row.len() < 9 {
        None
    } else {
        match (int_value(row[0]), opt_text_value(row[1]), opt_text_value(row[2]), text_value(row[3]),
            opt_text_value(row[4]), opt_int_value(row[5]), text_value(row[6]), flag_value(row[7]), flag_value(row[8])) {
            (Some(id), Some(content), Some(image_path), Some(content_type), Some(source_app), Some(char_count),
                Some(created_at), Some(is_pinned), Some(is_sensitive)) => Some(ClipboardHistoryItemView {
                id, content, image_path, content_type, source_app, char_count, created_at, is_pinned, is_sensitive,
            }),
            _ => None,
        }
    }
}

impl RowRecord for ClipboardHistoryItem {
    open spec fn from_row(row: Seq<SqlValueView>) -> Option<ClipboardHistoryItemView> {
        history_item_of(row)
    }

    fn decode_row(row: &Vec<SqlValue>) -> (r: Result<ClipboardHistoryItem, String>)
    {
        if row.len() < 9 {
            return Err(crate::storage::database::decode_failure_message());
        }
        let id = match decode_int(&row[0]) { Ok(x) => x, Err(e) => return Err(e) };
        let content = match decode_opt_text(&row[1]) { Ok(x) => x, Err(e) => return Err(e) };
        let image_path = match decode_opt_text(&row[2]) { Ok(x) => x, Err(e) => return Err(e) };
        let content_type = match decode_text(&row[3]) { Ok(x) => x, Err(e) => return Err(e) };
        let source_app = match decode_opt_text(&row[4]) { Ok(x) => x, Err(e) => return Err(e) };
        let char_count = match decode_opt_int(&row[5]) { Ok(x) => x, Err(e) => return Err(e) };
        let created_at = match decode_text(&row[6]) { Ok(x) => x, Err(e) => return Err(e) };
        let is_pinned = match decode_flag(&row[7]) { Ok(x) => x, Err(e) => return Err(e) };
        let is_sensitive = match decode_flag(&row[8]) { Ok(x) => x, Err(e) => return Err(e) };
        Ok(ClipboardHistoryItem { id, content, image_path, content_type, source_app, char_count, created_at, is_pinned, is_sensitive })
    }
}

/// The records of a history listing or search, up to the first failure.
pub fn list_history(outcome: QueryOutcome) -> (r: Result<Vec<ClipboardHistoryItem>, String>)
    ensures
        match r {
            Ok(v) => query_records::<ClipboardHistoryItem>(outcome) == Ok::<Seq<ClipboardHistoryItemView>, Seq<char>>(record_views(v@)),
            Err(e) => query_records::<ClipboardHistoryItem>(outcome) == Err::<Seq<ClipboardHistoryItemView>, Seq<char>>(e@),
        },
{
    decode_records::<ClipboardHistoryItem>(outcome)
}

/// The number of records deleted when the unpinned ones are cleared (the statement's
/// outcome is handed in); a failure reads "清空失败: " and the database's message.
pub fn clear_unpinned(deleted: Result<usize, String>) -> (r: Result<u64, String>)
    ensures
        match deleted {
            Ok(n) => r == Ok::<u64, String>(n as u64),
            Err(e) => r matches Err(m) && m@ == "清空失败: "@ + e@,
        },
{
    proof {
        reveal_strlit("");
    }
    match deleted {
        Ok(n) => Ok(n as u64),
        Err(e) => Err(concat3("清空失败: ", e.as_str(), "")),
    }
}

/// The number of records (the count query's outcome is handed in); a failure reads
/// "计数查询失败: " and the database's message.
pub fn count_history(counted: Result<i64, String>) -> (r: Result<i64, String>)
    ensures
        match counted {
            Ok(n) => r == Ok::<i64, String>(n),
            Err(e) => r matches Err(m) && m@ == "计数查询失败: "@ + e@,
        },
{
    proof {
        reveal_strlit("");
    }
    match counted {
        Ok(n) => Ok(n),
        Err(e) => Err(concat3("计数查询失败: ", e.as_str(), "")),
    }
}

/// The pin flag stored after toggling `current`, and whether the record is now pinned.
pub fn toggled_pin(current: i32) -> (r: (i32, bool))
    ensures
        r.0 == (if current == 0 { 1i32 } else { 0i32 }),
        r.1 == (current == 0),
{
    let new_state: i32 = if current == 0 { 1 } else { 0 };
    (new_state, new_state != 0)
}

/// The date modifier that keeps `days` days of history: "-<days> days".
pub fn retention_modifier(days: u32) -> (r: String)
    ensures
        r@ == "-"@ + decimal(days as nat) + " days"@,
{
    let d = decimal_string(days as u64);
    concat3("-", d.as_str(), " days")
}

/// The statement that deletes the unpinned records created before a date modifier.
pub const CLEAR_UNPINNED_BEFORE_SQL: &'static str = "DELETE FROM clipboard_history WHERE is_pinned = 0 AND created_at < datetime('now', 'localtime', ?1)";

/// The statement that clears the unpinned history but keeps the last `retain_days` days;
/// with no days to keep, every unpinned record goes.
pub fn retention_query(retain_days: u32) -> (r: SqlQuery)
    ensures
        retain_days == 0 ==> r.sql@ == CLEAR_UNPINNED_SQL@ && r.params@.len() == 0,
        retain_days > 0 ==> r.sql@ == CLEAR_UNPINNED_BEFORE_SQL@ && params_view(r.params@) == seq![
            SqlValueView::Text("-"@ + decimal(retain_days as nat) + " days"@),
        ],
{
    if retain_days == 0 {
        SqlQuery { sql: CLEAR_UNPINNED_SQL.to_owned(), params: Vec::new() }
    } else {
        let m = retention_modifier(retain_days);
        let ghost mv = m@;
        let mut params: Vec<SqlValue> = Vec::new();
        params.push(SqlValue::Text(m));
        assert(params_view(params@) =~= seq![SqlValueView::Text(mv)]);
        SqlQuery { sql: CLEAR_UNPINNED_BEFORE_SQL.to_owned(), params }
    }
}

/// The keyword search within one content type: the newest record of each distinct content,
/// whose text contains parameter 1 (a LIKE pattern) and whose type is parameter 2, newest
/// first, at most parameter 3 of them.
pub const KEYWORD_TYPED_SQL: &'static str = "WITH ranked AS (\n                     SELECT id, content, image_path, content_type, source_app, char_count, created_at, is_pinned, is_sensitive,\n                            ROW_NUMBER() OVER (\n                                PARTITION BY content_type, COALESCE(image_path, ''), COALESCE(content, '')\n                                ORDER BY created_at DESC, id DESC\n                            ) AS rn\n                     FROM clipboard_history\n                     WHERE content LIKE ?1 AND content_type = ?2\n                 )\n                 SELECT id, content, image_path, content_type, source_app, char_count, created_at, is_pinned, is_sensitive\n                 FROM ranked\n                 WHERE rn = 1\n                 ORDER BY created_at DESC, id DESC\n                 LIMIT ?3";

/// The keyword search over every content type: as `KEYWORD_TYPED_SQL`, without the type
/// condition, the limit being parameter 2.
pub const KEYWORD_SQL: &'static str = "WITH ranked AS (\n                     SELECT id, content, image_path, content_type, source_app, char_count, created_at, is_pinned, is_sensitive,\n                            ROW_NUMBER() OVER (\n                                PARTITION BY content_type, COALESCE(image_path, ''), COALESCE(content, '')\n                                ORDER BY created_at DESC, id DESC\n                            ) AS rn\n                     FROM clipboard_history\n                     WHERE content LIKE ?1\n                 )\n                 SELECT id, content, image_path, content_type, source_app, char_count, created_at, is_pinned, is_sensitive\n                 FROM ranked\n                 WHERE rn = 1\n                 ORDER BY created_at DESC, id DESC\n                 LIMIT ?2";

/// The statement and parameters of a keyword search: the keyword between '%' signs, the
/// content type when one is given, then the limit.
pub fn search_history(keyword: &str, content_type_filter: Option<&str>, limit: i64) -> (r: SqlQuery)
    ensures
        match content_type_filter {
            Some(ct) => r.sql@ == KEYWORD_TYPED_SQL@ && params_view(r.params@) == seq![
                SqlValueView::Text("%"@ + keyword@ + "%"@),
                SqlValueView::Text(ct@),
                SqlValueView::Int(limit),
            ],
            None => r.sql@ == KEYWORD_SQL@ && params_view(r.params@) == seq![
                SqlValueView::Text("%"@ + keyword@ + "%"@),
                SqlValueView::Int(limit),
            ],
        },
{
    let pattern = concat3("%", keyword, "%");
    let ghost pv = pattern@;
    let mut params: Vec<SqlValue> = Vec::new();
    params.push(SqlValue::Text(pattern));
    match content_type_filter {
        Some(ct) => {
            params.push(SqlValue::Text(ct.to_owned()));
            params.push(SqlValue::Int(limit));
            assert(params_view(params@) =~= seq![SqlValueView::Text(pv), SqlValueView::Text(ct@), SqlValueView::Int(limit)]);
            SqlQuery { sql: KEYWORD_TYPED_SQL.to_owned(), params }
        },
        None => {
            params.push(SqlValue::Int(limit));
            assert(params_view(params@) =~= seq![SqlValueView::Text(pv), SqlValueView::Int(limit)]);
            SqlQuery { sql: KEYWORD_SQL.to_owned(), params }
        },
    }
}

/// The statement that records a clipboard change (parameters: content, image path, image
/// hash, content type, source application, size, sensitivity).
pub const INSERT_HISTORY_SQL: &'static str = "INSERT INTO clipboard_history (content, image_path, image_hash, content_type, source_app, char_count, is_sensitive)\n         VALUES (?1, ?2, ?3, ?4, ?5, ?6, ?7)";

/// The statement that refreshes the record of an image already stored under its hash
/// (parameters: image path, content type, source application, size, sensitivity, record
/// id); it is dated now.
pub const REFRESH_IMAGE_SQL: &'static str = "UPDATE clipboard_history\n                 SET image_path = ?1,\n                     content_type = ?2,\n                     source_app = ?3,\n                     char_count = ?4,\n                     is_sensitive = ?5,\n                     created_at = datetime('now', 'localtime')\n                 WHERE id = ?6";

/// A clipboard change to be recorded.
pub struct NewHistoryRecord {
    pub content: Option<String>,
    pub image_path: Option<String>,
    pub image_hash: Option<String>,
    pub content_type: String,
    pub source_app: Option<String>,
    pub char_count: Option<i64>,
    pub is_sensitive: bool,
}

/// The value of an optional text column.
pub open spec fn text_or_null(o: Option<Seq<char>>) -> SqlValueView {
    match o {
        Some(t) => SqlValueView::Text(t),
        None => SqlValueView::Null,
    }
}

/// The value of an optional integer column.
pub open spec fn int_or_null(o: Option<i64>) -> SqlValueView {
    match o {
        Some(i) => SqlValueView::Int(i),
        None => SqlValueView::Null,
    }
}

fn optional_text(o: &Option<String>) -> (r: SqlValue)
    ensures
        r@ == text_or_null(opt_text(*o)),
{
    match o {
        Some(t) => SqlValue::Text(t.clone()),
        None => SqlValue::Null,
    }
}

fn optional_int(o: Option<i64>) -> (r: SqlValue)
    ensures
        r@ == int_or_null(o),
{
    match o {
        Some(i) => SqlValue::Int(i),
        None => SqlValue::Null,
    }
}

/// How a change is written, given the record already stored under its image hash (looked up
/// only when the change has one): an image stored before has its record refreshed, anything
/// else gets a new record.
pub fn history_write(rec: &NewHistoryRecord, existing_image: Option<i64>) -> (r: SqlQuery)
    ensures
        match (rec.image_hash, existing_image) {
            (Some(_), Some(id)) => r.sql@ == REFRESH_IMAGE_SQL@ && params_view(r.params@) == seq![
                text_or_null(opt_text(rec.image_path)),
                SqlValueView::Text(rec.content_type@),
                text_or_null(opt_text(rec.source_app)),
                int_or_null(rec.char_count),
                SqlValueView::Int(if rec.is_sensitive { 1 } else { 0 }),
                SqlValueView::Int(id),
            ],
            _ => r.sql@ == INSERT_HISTORY_SQL@ && params_view(r.params@) == seq![
                text_or_null(opt_text(rec.content)),
                text_or_null(opt_text(rec.image_path)),
                text_or_null(opt_text(rec.image_hash)),
                SqlValueView::Text(rec.content_type@),
                text_or_null(opt_text(rec.source_app)),
                int_or_null(rec.char_count),
                SqlValueView::Int(if rec.is_sensitive { 1 } else { 0 }),
            ],
        },
{
    let flag: i64 = if rec.is_sensitive { 1 } else { 0 };
    let refresh = match (&rec.image_hash, existing_image) {
        (Some(_), Some(id)) => Some(id),
        _ => None,
    };
    let mut params: Vec<SqlValue> = Vec::new();
    match refresh {
        Some(id) => {
            params.push(optional_text(&rec.image_path));
            params.push(SqlValue::Text(rec.content_type.clone()));
            params.push(optional_text(&rec.source_app));
            params.push(optional_int(rec.char_count));
            params.push(SqlValue::Int(flag));
            params.push(SqlValue::Int(id));
            assert(params_view(params@) =~= seq![
                text_or_null(opt_text(rec.image_path)),
                SqlValueView::Text(rec.content_type@),
                text_or_null(opt_text(rec.source_app)),
                int_or_null(rec.char_count),
                SqlValueView::Int(flag),
                SqlValueView::Int(id),
            ]);
            SqlQuery { sql: REFRESH_IMAGE_SQL.to_owned(), params }
        },
        None => {
            params.push(optional_text(&rec.content));
            params.push(optional_text(&rec.image_path));
            params.push(optional_text(&rec.image_hash));
            params.push(SqlValue::Text(rec.content_type.clone()));
            params.push(optional_text(&rec.source_app));
            params.push(optional_int(rec.char_count));
            params.push(SqlValue::Int(flag));
            assert(params_view(params@) =~= seq![
                text_or_null(opt_text(rec.content)),
                text_or_null(opt_text(rec.image_path)),
                text_or_null(opt_text(rec.image_hash)),
                SqlValueView::Text(rec.content_type@),
                text_or_null(opt_text(rec.source_app)),
                int_or_null(rec.char_count),
                SqlValueView::Int(flag),
            ]);
            SqlQuery { sql: INSERT_HISTORY_SQL.to_owned(), params }
        },
    }
}

/// The filters of an advanced history search.
pub struct SearchFilters {
    pub keyword: Option<String>,
    pub content_type: Option<String>,
    pub tag: Option<String>,
    pub pinned_only: Option<bool>,
    pub date_from: Option<String>,
    pub date_to: Option<String>,
}

/// A statement with its parameters.
pub struct SqlQuery {
    pub sql: String,
    pub params: Vec<SqlValue>,
}

/// The conditions and parameters gathered so far, and the number of the next parameter.
pub struct Conditions {
    pub conds: Seq<Seq<char>>,
    pub params: Seq<SqlValueView>,
    pub next: nat,
}

/// `c` with a condition that takes the next parameter `p`: `lhs` followed by "?" and the
/// parameter's number.
pub open spec fn with_param(c: Conditions, lhs: Seq<char>, p: SqlValueView) -> Conditions {
    Conditions { conds: c.conds.push(lhs + "?"@ + decimal(c.next)), params: c.params.push(p), next: c.next + 1 }
}

/// Whether an optional text is present and not empty.
pub open spec fn given(o: Option<Seq<char>>) -> bool {
    o matches Some(s) && s.len() > 0
}

/// The conditions of a search, in the order: keyword, content type (every code language
/// when it starts with "Code"), tag, pinned only, earliest date, latest date.
pub open spec fn search_conditions(
    keyword: Option<Seq<char>>,
    content_type: Option<Seq<char>>,
    tag: Option<Seq<char>>,
    pinned_only: Option<bool>,
    date_from: Option<Seq<char>>,
    date_to: Option<Seq<char>>,
) -> Conditions {
    let c0 = Conditions { conds: Seq::empty(), params: Seq::empty(), next: 1 };
    let c1 = if given(keyword) {
        with_param(c0, "ch.content LIKE "@, SqlValueView::Text("%"@ + keyword->0 + "%"@))
    } else {
        c0
    };
    let c2 = match content_type {
        Some(ct) => if starts_with(ct, "Code"@) {
            with_param(c1, "ch.content_type LIKE "@, SqlValueView::Text("Code%"@))
        } else {
            with_param(c1, "ch.content_type = "@, SqlValueView::Text(ct))
        },
        None => c1,
    };
    let c3 = match tag {
        Some(t) => with_param(c2, "ct.tag_name = "@, SqlValueView::Text(t)),
        None => c2,
    };
    let c4 = if pinned_only == Some(true) {
        Conditions { conds: c3.conds.push("ch.is_pinned = 1"@), params: c3.params, next: c3.next }
    } else {
        c3
    };
    let c5 = if given(date_from) {
        with_param(c4, "ch.created_at >= "@, SqlValueView::Text(date_from->0))
    } else {
        c4
    };
    if given(date_to) {
        with_param(c5, "ch.created_at <= "@, SqlValueView::Text(date_to->0))
    } else {
        c5
    }
}

/// The first part of the advanced search statement, before the join clause.
pub const ADVANCED_HEAD: &'static str = "WITH ranked AS (\n             SELECT ch.id, ch.content, ch.image_path, ch.content_type, ch.source_app, ch.char_count, ch.created_at, ch.is_pinned, ch.is_sensitive,\n                    ROW_NUMBER() OVER (\n                        PARTITION BY ch.content_type, COALESCE(ch.image_path, ''), COALESCE(ch.content, '')\n                        ORDER BY ch.created_at DESC, ch.id DESC\n                    ) AS rn\n             FROM clipboard_history ch\n             ";
/// Between the join clause and the where clause.
pub const ADVANCED_MIDDLE: &'static str = "\n             ";
/// After the where clause, before the limit's parameter number.
pub const ADVANCED_TAIL: &'static str = "\n         )\n         SELECT id, content, image_path, content_type, source_app, char_count, created_at, is_pinned, is_sensitive\n         FROM ranked\n         WHERE rn = 1\n         ORDER BY created_at DESC, id DESC\n         LIMIT ?";
/// Between the limit's and the offset's parameter numbers.
pub const ADVANCED_OFFSET: &'static str = " OFFSET ?";
/// The join that filtering by tag needs.
pub const TAG_JOIN: &'static str = "INNER JOIN clipboard_tags ct ON ch.id = ct.clipboard_id";

/// The where clause of the conditions.
pub open spec fn where_clause(conds: Seq<Seq<char>>) -> Seq<char> {
    if conds.len() == 0 { Seq::empty() } else { "WHERE "@ + join(conds, " AND "@) }
}

/// The advanced search statement for these filters.
pub open spec fn advanced_sql(f: Conditions, tagged: bool) -> Seq<char> {
    ADVANCED_HEAD@ + (if tagged { TAG_JOIN@ } else { Seq::empty() }) + ADVANCED_MIDDLE@ + where_clause(f.conds)
        + ADVANCED_TAIL@ + decimal(f.next) + ADVANCED_OFFSET@ + decimal(f.next + 1)
}

/// The views of a statement's parameters.
pub open spec fn params_view(v: Seq<SqlValue>) -> Seq<SqlValueView> {
    Seq::new(v.len(), |i: int| v[i]@)
}

/// The conditions and parameters of a statement being built.
pub struct CondBuilder {
    pub conds: Vec<Vec<char>>,
    pub params: Vec<SqlValue>,
    pub next: u64,
}

/// The views of the conditions built.
pub open spec fn conds_view(v: Seq<Vec<char>>) -> Seq<Seq<char>> {
    v.map_values(|l: Vec<char>| l@)
}

impl CondBuilder {
    /// The mathematical value of the builder.
    pub open spec fn spec_conditions(&self) -> Conditions {
        Conditions { conds: conds_view(self.conds@), params: params_view(self.params@), next: self.next as nat }
    }

    /// No condition yet; the first parameter is number one.
    pub fn start() -> (r: CondBuilder)
        ensures
            r.spec_conditions() == (Conditions { conds: Seq::empty(), params: Seq::empty(), next: 1 }),
    {
        let r = CondBuilder { conds: Vec::new(), params: Vec::new(), next: 1 };
        assert(conds_view(r.conds@) =~= Seq::<Seq<char>>::empty());
        assert(params_view(r.params@) =~= Seq::<SqlValueView>::empty());
        r
    }

    /// Add a condition that takes the next parameter `p`.
    pub fn with(&mut self, lhs: &str, p: SqlValue)
        requires
            old(self).next < u64::MAX,
        ensures
            final(self).spec_conditions() == with_param(old(self).spec_conditions(), lhs@, p@),
    {
        let ghost before = self.spec_conditions();
        let mut c: Vec<char> = Vec::new();
        append_str(&mut c, lhs);
        append_str(&mut c, "?");
        let d = decimal_chars(self.next);
        append_chars(&mut c, &d);
        let ghost cv = c@;
        let ghost pv = p@;
        self.conds.push(c);
        self.params.push(p);
        self.next = self.next + 1;
        assert(conds_view(self.conds@) =~= before.conds.push(cv));
        assert(params_view(self.params@) =~= before.params.push(pv));
    }

    /// Add a condition without a parameter.
    pub fn with_plain(&mut self, cond: &str)
        ensures
            final(self).spec_conditions() == (Conditions {
                conds: old(self).spec_conditions().conds.push(cond@),
                params: old(self).spec_conditions().params,
                next: old(self).spec_conditions().next,
            }),
    {
        let ghost before = self.spec_conditions();
        let c = chars_of(cond);
        self.conds.push(c);
        assert(conds_view(self.conds@) =~= before.conds.push(cond@));
    }
}

/// The conditions and parameters of the search filters.
pub fn advanced_conditions(filters: &SearchFilters) -> (r: CondBuilder)
    ensures
        r.spec_conditions() == search_conditions(
            opt_text(filters.keyword),
            opt_text(filters.content_type),
            opt_text(filters.tag),
            filters.pinned_only,
            opt_text(filters.date_from),
            opt_text(filters.date_to),
        ),
        r.next <= 7,
{
    proof {
        reveal_strlit("Code");
    }
    let mut b = CondBuilder::start();
    if let Some(kw) = &filters.keyword {
        if chars_of(kw.as_str()).len() > 0 {
            let pattern = concat3("%", kw.as_str(), "%");
            b.with("ch.content LIKE ", SqlValue::Text(pattern));
        }
    }
    if let Some(ct) = &filters.content_type {
        let cc = chars_of(ct.as_str());
        let code = chars_of("Code");
        if starts_with_chars(&cc, &code) {
            b.with("ch.content_type LIKE ", SqlValue::Text("Code%".to_owned()));
        } else {
            b.with("ch.content_type = ", SqlValue::Text(ct.clone()));
        }
    }
    if let Some(t) = &filters.tag {
        b.with("ct.tag_name = ", SqlValue::Text(t.clone()));
    }
    if filters.pinned_only == Some(true) {
        b.with_plain("ch.is_pinned = 1");
    }
    if let Some(df) = &filters.date_from {
        if chars_of(df.as_str()).len() > 0 {
            b.with("ch.created_at >= ", SqlValue::Text(df.clone()));
        }
    }
    if let Some(dt) = &filters.date_to {
        if chars_of(dt.as_str()).len() > 0 {
            b.with("ch.created_at <= ", SqlValue::Text(dt.clone()));
        }
    }
    b
}

/// The statement and parameters of an advanced history search: the conditions of the
/// filters, the tag join when a tag is given, then the limit and offset parameters.
pub fn search_history_advanced(filters: &SearchFilters, limit: i64, offset: i64) -> (r: SqlQuery)
    ensures
        ({
            let c = search_conditions(
                opt_text(filters.keyword),
                opt_text(filters.content_type),
                opt_text(filters.tag),
                filters.pinned_only,
                opt_text(filters.date_from),
                opt_text(filters.date_to),
            );
            &&& r.sql@ == advanced_sql(c, filters.tag is Some)
            &&& params_view(r.params@) == c.params.push(SqlValueView::Int(limit)).push(SqlValueView::Int(offset))
        }),
{
    let b = advanced_conditions(filters);
    let ghost c = b.spec_conditions();
    let CondBuilder { conds, params, next } = b;
    let mut params = params;
    let mut sql: Vec<char> = Vec::new();
    append_str(&mut sql, ADVANCED_HEAD);
    let ghost s0 = sql@;
    if filters.tag.is_some() {
        append_str(&mut sql, TAG_JOIN);
    }
    assert(sql@ =~= s0 + (if filters.tag is Some { TAG_JOIN@ } else { Seq::<char>::empty() }));
    append_str(&mut sql, ADVANCED_MIDDLE);
    let ghost s1 = sql@;
    if conds.len() > 0 {
        append_str(&mut sql, "WHERE ");
        let sep = chars_of(" AND ");
        let joined = join_chars(&conds, &sep);
        append_chars(&mut sql, &joined);
    }
    assert(sql@ =~= s1 + where_clause(c.conds));
    append_str(&mut sql, ADVANCED_TAIL);
    let d1 = decimal_chars(next);
    append_chars(&mut sql, &d1);
    append_str(&mut sql, ADVANCED_OFFSET);
    let d2 = decimal_chars(next + 1);
    append_chars(&mut sql, &d2);
    let ghost pv = params_view(params@);
    params.push(SqlValue::Int(limit));
    params.push(SqlValue::Int(offset));
    assert(params_view(params@) =~= pv.push(SqlValueView::Int(limit)).push(SqlValueView::Int(offset)));
    SqlQuery { sql: string_from_chars(&sql), params }
}

/// Whether `c` holds the condition `lhs` followed by "?n" whose parameter `n` (counted from
/// one) is `v`.
pub open spec fn binds(c: Conditions, lhs: Seq<char>, v: SqlValueView) -> bool {
    exists|i: int, n: int|
        0 <= i < c.conds.len() && 1 <= n <= c.params.len() && #[trigger] c.conds[i] == lhs + "?"@ + decimal(
            n as nat,
        ) && #[trigger] c.params[n - 1] == v
}

/// The parameters so far are numbered one up to just before `next`.
pub open spec fn numbered(c: Conditions) -> bool {
    c.params.len() + 1 == c.next
}

proof fn lemma_with_param_binds(c: Conditions, lhs: Seq<char>, v: SqlValueView)
    requires
        numbered(c),
    ensures
        numbered(with_param(c, lhs, v)),
        binds(with_param(c, lhs, v), lhs, v),
{
    let d = with_param(c, lhs, v);
    let i = c.conds.len() as int;
    let n = c.next as int;
    assert(d.conds[i] == lhs + "?"@ + decimal(n as nat));
    assert(d.params[n - 1] == v);
}

proof fn lemma_binds_kept(c: Conditions, lhs: Seq<char>, v: SqlValueView, d: Conditions)
    requires
        binds(c, lhs, v),
        c.conds.len() <= d.conds.len(),
        c.params.len() <= d.params.len(),
        forall|i: int| 0 <= i < c.conds.len() ==> d.conds[i] == c.conds[i],
        forall|i: int| 0 <= i < c.params.len() ==> d.params[i] == c.params[i],
    ensures
        binds(d, lhs, v),
{
    let (i, n) = choose|i: int, n: int|
        0 <= i < c.conds.len() && 1 <= n <= c.params.len() && #[trigger] c.conds[i] == lhs + "?"@ + decimal(
            n as nat,
        ) && #[trigger] c.params[n - 1] == v;
    assert(d.conds[i] == c.conds[i]);
    assert(d.params[n - 1] == c.params[n - 1]);
}

/// Every filter of an advanced search that is given (a keyword or a date only when not
/// empty) puts its condition in the statement, with its value as that condition's numbered
/// parameter: the keyword between '%' signs, the content type itself (every code language,
/// "Code%", when it starts with "Code"), the tag, the dates; "pinned only" adds
/// "ch.is_pinned = 1". There is one condition per given filter and no other, and the limit
/// and offset take the two numbers after the last parameter.
pub proof fn law_search_filters(
    keyword: Option<Seq<char>>,
    content_type: Option<Seq<char>>,
    tag: Option<Seq<char>>,
    pinned_only: Option<bool>,
    date_from: Option<Seq<char>>,
    date_to: Option<Seq<char>>,
)
    ensures
        ({
            let c = search_conditions(keyword, content_type, tag, pinned_only, date_from, date_to);
            &&& c.next == c.params.len() + 1
            &&& given(keyword) ==> binds(c, "ch.content LIKE "@, SqlValueView::Text("%"@ + keyword->0 + "%"@))
            &&& (content_type matches Some(t) && !starts_with(t, "Code"@)) ==> binds(
                c,
                "ch.content_type = "@,
                SqlValueView::Text(content_type->0),
            )
            &&& (content_type matches Some(t) && starts_with(t, "Code"@)) ==> binds(
                c,
                "ch.content_type LIKE "@,
                SqlValueView::Text("Code%"@),
            )
            &&& tag is Some ==> binds(c, "ct.tag_name = "@, SqlValueView::Text(tag->0))
            &&& pinned_only == Some(true) ==> c.conds.contains("ch.is_pinned = 1"@)
            &&& given(date_from) ==> binds(c, "ch.created_at >= "@, SqlValueView::Text(date_from->0))
            &&& given(date_to) ==> binds(c, "ch.created_at <= "@, SqlValueView::Text(date_to->0))
            &&& c.conds.len() == (if given(keyword) { 1int } else { 0 }) + (if content_type is Some { 1int } else { 0 })
                + (if tag is Some { 1int } else { 0 }) + (if pinned_only == Some(true) { 1int } else { 0 })
                + (if given(date_from) { 1int } else { 0 }) + (if given(date_to) { 1int } else { 0 })
        }),
{
    let c0 = Conditions { conds: Seq::empty(), params: Seq::empty(), next: 1 };
    let kw_v = SqlValueView::Text("%"@ + keyword->0 + "%"@);
    let c1 = if given(keyword) { with_param(c0, "ch.content LIKE "@, kw_v) } else { c0 };
    if given(keyword) {
        lemma_with_param_binds(c0, "ch.content LIKE "@, kw_v);
    }
    let (ct_l, ct_v) = match content_type {
        Some(ct) => if starts_with(ct, "Code"@) {
            ("ch.content_type LIKE "@, SqlValueView::Text("Code%"@))
        } else {
            ("ch.content_type = "@, SqlValueView::Text(ct))
        },
        None => ("ch.content_type = "@, SqlValueView::Null),
    };
    let c2 = if content_type is Some { with_param(c1, ct_l, ct_v) } else { c1 };
    if content_type is Some {
        lemma_with_param_binds(c1, ct_l, ct_v);
        if given(keyword) {
            lemma_binds_kept(c1, "ch.content LIKE "@, kw_v, c2);
        }
    }
    let tag_v = SqlValueView::Text(tag->0);
    let c3 = if tag is Some { with_param(c2, "ct.tag_name = "@, tag_v) } else { c2 };
    if tag is Some {
        lemma_with_param_binds(c2, "ct.tag_name = "@, tag_v);
        if given(keyword) {
            lemma_binds_kept(c2, "ch.content LIKE "@, kw_v, c3);
        }
        if content_type is Some {
            lemma_binds_kept(c2, ct_l, ct_v, c3);
        }
    }
    let c4 = if pinned_only == Some(true) {
        Conditions { conds: c3.conds.push("ch.is_pinned = 1"@), params: c3.params, next: c3.next }
    } else {
        c3
    };
    if pinned_only == Some(true) {
        if given(keyword) {
            lemma_binds_kept(c3, "ch.content LIKE "@, kw_v, c4);
        }
        if content_type is Some {
            lemma_binds_kept(c3, ct_l, ct_v, c4);
        }
        if tag is Some {
            lemma_binds_kept(c3, "ct.tag_name = "@, tag_v, c4);
        }
        assert(c4.conds[c4.conds.len() - 1] == "ch.is_pinned = 1"@);
    }
    let df_v = SqlValueView::Text(date_from->0);
    let c5 = if given(date_from) { with_param(c4, "ch.created_at >= "@, df_v) } else { c4 };
    if given(date_from) {
        lemma_with_param_binds(c4, "ch.created_at >= "@, df_v);
        if given(keyword) {
            lemma_binds_kept(c4, "ch.content LIKE "@, kw_v, c5);
        }
        if content_type is Some {
            lemma_binds_kept(c4, ct_l, ct_v, c5);
        }
        if tag is Some {
            lemma_binds_kept(c4, "ct.tag_name = "@, tag_v, c5);
        }
        if pinned_only == Some(true) {
            assert(c5.conds[c4.conds.len() - 1] == "ch.is_pinned = 1"@);
        }
    }
    let dt_v = SqlValueView::Text(date_to->0);
    let c6 = if given(date_to) { with_param(c5, "ch.created_at <= "@, dt_v) } else { c5 };
    if given(date_to) {
        lemma_with_param_binds(c5, "ch.created_at <= "@, dt_v);
        if given(keyword) {
            lemma_binds_kept(c5, "ch.content LIKE "@, kw_v, c6);
        }
        if content_type is Some {
            lemma_binds_kept(c5, ct_l, ct_v, c6);
        }
        if tag is Some {
            lemma_binds_kept(c5, "ct.tag_name = "@, tag_v, c6);
        }
        if given(date_from) {
            lemma_binds_kept(c5, "ch.created_at >= "@, df_v, c6);
        }
        if pinned_only == Some(true) {
            assert(c6.conds[c4.conds.len() - 1] == "ch.is_pinned = 1"@);
        }
    }
    assert(search_conditions(keyword, content_type, tag, pinned_only, date_from, date_to) == c6);
    if pinned_only == Some(true) {
        assert(c6.conds[c4.conds.len() - 1] == "ch.is_pinned = 1"@);
        assert(c6.conds.contains("ch.is_pinned = 1"@));
    }
}

} // verus!
