//! Tags on clipboard history records.
use vstd::prelude::*;
use crate::text::{opt_text, copy_opt_text, concat3};
use crate::storage::database::{
    SqlValue, SqlValueView, QueryOutcome, decode_failure, decode_failure_message, decode_int, decode_opt_int,
    decode_text, decode_opt_text, int_value, opt_int_value, text_value, opt_text_value, row_view, RowRecord,
    query_records, record_views, decode_records, kept_records, keep_records, outcome_rows,
};

verus! {

/// A tag on a clipboard history record.
#[derive(Debug, Clone)]
pub struct ClipboardTag {
    pub id: i64,
    pub clipboard_id: i64,
    pub tag_name: String,
    pub created_at: String,
}

/// The mathematical value of a `ClipboardTag`.
pub struct ClipboardTagView {
    pub id: i64,
    pub clipboard_id: i64,
    pub tag_name: Seq<char>,
    pub created_at: Seq<char>,
}

impl View for ClipboardTag {
    type V = ClipboardTagView;

    open spec fn view(&self) -> ClipboardTagView {
        ClipboardTagView {
            id: self.id,
            clipboard_id: self.clipboard_id,
            tag_name: self.tag_name@,
            created_at: self.created_at@,
        }
    }
}

impl ClipboardTag {
    /// A copy of this value.
    pub fn duplicate(&self) -> (r: ClipboardTag)
        ensures
            r@ == self@,
    {
        let r = ClipboardTag {
            id: self.id,
            clipboard_id: self.clipboard_id,
            tag_name: self.tag_name.clone(),
            created_at: self.created_at.clone(),
        };
        r
    }
}

/// Every tag name, most used first.
pub const ALL_TAGS_SQL: &'static str = "SELECT tag_name, COUNT(*) as cnt FROM clipboard_tags GROUP BY tag_name ORDER BY cnt DESC";

/// The tag names of one record (parameter 1), oldest first.
pub const ITEM_TAGS_SQL: &'static str = "SELECT tag_name FROM clipboard_tags WHERE clipboard_id = ?1 ORDER BY created_at";

/// A tag name read from a row.
pub struct TagName {
    pub name: String,
}

impl View for TagName {
    type V = Seq<char>;

    open spec fn view(&self) -> Seq<char> {
        self.name@
    }
}

impl RowRecord for TagName {
    open spec fn from_row(row: Seq<SqlValueView>) -> Option<Seq<char>> {
        if row.len() < 1 { None } else { text_value(row[0]) }
    }

    fn decode_row(row: &Vec<SqlValue>) -> (r: Result<TagName, String>) {
        if row.len() < 1 {
            return Err(decode_failure_message());
        }
        match decode_text(&row[0]) {
            Ok(name) => Ok(TagName { name }),
            Err(e) => Err(e),
        }
    }
}

/// The tag names listed by a query (all tags, most used first, or those of one record),
/// up to the first failure.
pub fn list_all_tags(outcome: QueryOutcome) -> (r: Result<Vec<String>, String>)
    ensures
        match r {
            Ok(v) => query_records::<TagName>(outcome) == Ok::<Seq<Seq<char>>, Seq<char>>(crate::text::texts(v@)),
            Err(e) => query_records::<TagName>(outcome) == Err::<Seq<Seq<char>>, Seq<char>>(e@),
        },
{
    match decode_records::<TagName>(outcome) {
        Ok(v) => {
            let mut out: Vec<String> = Vec::new();
            let n = v.len();
            let mut i: usize = 0;
            while i < n
                invariant
                    n == v@.len(),
                    i <= n,
                    out@.len() == i,
                    forall|k: int| 0 <= k < i ==> #[trigger] out@[k]@ == v@[k]@,
                decreases n - i,
            {
                out.push(v[i].name.clone());
                i = i + 1;
            }
            assert(crate::text::texts(out@) =~= record_views(v@));
            Ok(out)
        },
        Err(e) => Err(e),
    }
}

} // verus!
