//! Values read from and written to the SQLite database, and how a row's columns are
//! decoded. Running the statements is the caller's part: it hands in what came back.
use vstd::prelude::*;

verus! {

/// A column value.
#[derive(Debug, Clone)]
pub enum SqlValue {
    Null,
    Int(i64),
    Text(String),
    /// A real number or a blob: never a valid value of the columns read here.
    Other,
}

/// The mathematical value of a `SqlValue`.
pub enum SqlValueView {
    Null,
    Int(i64),
    Text(Seq<char>),
    Other,
}

impl View for SqlValue {
    type V = SqlValueView;

    open spec fn view(&self) -> SqlValueView {
        match self {
            SqlValue::Null => SqlValueView::Null,
            SqlValue::Int(i) => SqlValueView::Int(*i),
            SqlValue::Text(s) => SqlValueView::Text(s@),
            SqlValue::Other => SqlValueView::Other,
        }
    }
}

/// The views of a row's values.
pub open spec fn row_view(row: Seq<SqlValue>) -> Seq<SqlValueView> {
    Seq::new(row.len(), |i: int| row[i]@)
}

/// What a query gave back: the rows (each read or failed), or the failure to prepare or
/// run the statement, with the database's message.
pub enum QueryOutcome {
    Rows(Vec<Result<Vec<SqlValue>, String>>),
    PrepareFailed(String),
    ExecuteFailed(String),
}

/// The text of a decoding failure.
pub open spec fn decode_failure() -> Seq<char> {
    "行解析失败: Invalid column type"@
}

/// The message of a decoding failure.
pub fn decode_failure_message() -> (r: String)
    ensures
        r@ == decode_failure(),
{
    "行解析失败: Invalid column type".to_owned()
}

/// The integer in a column.
pub open spec fn int_value(v: SqlValueView) -> Option<i64> {
    match v {
        SqlValueView::Int(i) => Some(i),
        _ => None,
    }
}

/// The optional integer in a column (`NULL` is none).
pub open spec fn opt_int_value(v: SqlValueView) -> Option<Option<i64>> {
    match v {
        SqlValueView::Null => Some(None),
        SqlValueView::Int(i) => Some(Some(i)),
        _ => None,
    }
}

/// The text in a column.
pub open spec fn text_value(v: SqlValueView) -> Option<Seq<char>> {
    match v {
        SqlValueView::Text(s) => Some(s),
        _ => None,
    }
}

/// The optional text in a column (`NULL` is none).
pub open spec fn opt_text_value(v: SqlValueView) -> Option<Option<Seq<char>>> {
    match v {
        SqlValueView::Null => Some(None),
        SqlValueView::Text(s) => Some(Some(s)),
        _ => None,
    }
}

/// The flag in a column stored as a 32-bit integer: set unless zero.
pub open spec fn flag_value(v: SqlValueView) -> Option<bool> {
    match v {
        SqlValueView::Int(i) => if i32::MIN <= i <= i32::MAX { Some(i != 0) } else { None },
        _ => None,
    }
}

/// Decodes an integer column.
pub fn decode_int(v: &SqlValue) -> (r: Result<i64, String>)
    ensures
        match r {
            Ok(i) => int_value(v@) == Some(i),
            Err(e) => int_value(v@) is None && e@ == decode_failure(),
        },
{
    match v {
        SqlValue::Int(i) => Ok(*i),
        _ => Err(decode_failure_message()),
    }
}

/// Decodes an optional integer column.
pub fn decode_opt_int(v: &SqlValue) -> (r: Result<Option<i64>, String>)
    ensures
        match r {
            Ok(i) => opt_int_value(v@) == Some(i),
            Err(e) => opt_int_value(v@) is None && e@ == decode_failure(),
        },
{
    match v {
        SqlValue::Null => Ok(None),
        SqlValue::Int(i) => Ok(Some(*i)),
        _ => Err(decode_failure_message()),
    }
}

/// Decodes a text column.
pub fn decode_text(v: &SqlValue) -> (r: Result<String, String>)
    ensures
        match r {
            Ok(s) => text_value(v@) == Some(s@),
            Err(e) => text_value(v@) is None && e@ == decode_failure(),
        },
{
    match v {
        SqlValue::Text(s) => Ok(s.clone()),
        _ => Err(decode_failure_message()),
    }
}

/// Decodes an optional text column.
pub fn decode_opt_text(v: &SqlValue) -> (r: Result<Option<String>, String>)
    ensures
        match r {
            Ok(s) => opt_text_value(v@) == Some(crate::text::opt_text(s)),
            Err(e) => opt_text_value(v@) is None && e@ == decode_failure(),
        },
{
    match v {
        SqlValue::Null => Ok(None),
        SqlValue::Text(s) => Ok(Some(s.clone())),
        _ => Err(decode_failure_message()),
    }
}

/// Decodes a flag column.
pub fn decode_flag(v: &SqlValue) -> (r: Result<bool, String>)
    ensures
        match r {
            Ok(b) => flag_value(v@) == Some(b),
            Err(e) => flag_value(v@) is None && e@ == decode_failure(),
        },
{
    match v {
        SqlValue::Int(i) => {
            if *i >= -2147483648 && *i <= 2147483647 {
                Ok(*i != 0)
            } else {
                Err(decode_failure_message())
            }
        },
        _ => Err(decode_failure_message()),
    }
}

/// The views of the rows a query read, each read or failed.
pub open spec fn outcome_rows(rows: Seq<Result<Vec<SqlValue>, String>>) -> Seq<Result<Seq<SqlValueView>, Seq<char>>> {
    Seq::new(rows.len(), |i: int| match rows[i] {
        Ok(r) => Ok(row_view(r@)),
        Err(e) => Err(e@),
    })
}

/// A record read from one row.
pub trait RowRecord: Sized + View {
    /// The record a row holds, when its columns decode.
    spec fn from_row(row: Seq<SqlValueView>) -> Option<Self::V>;

    /// Decodes a row.
    fn decode_row(row: &Vec<SqlValue>) -> (r: Result<Self, String>)
        ensures
            match r {
                Ok(x) => Self::from_row(row_view(row@)) == Some(x@),
                Err(e) => Self::from_row(row_view(row@)) is None && e@ == decode_failure(),
            };
}

/// The records of the rows, up to the first row that fails: a row the database could not
/// read fails with "行解析失败: " and its message, a row that does not decode with the
/// decoding failure.
pub open spec fn decoded_records<T: RowRecord>(rows: Seq<Result<Seq<SqlValueView>, Seq<char>>>) -> Result<Seq<T::V>, Seq<char>>
    decreases rows.len(),
{
    if rows.len() == 0 {
        Ok(Seq::empty())
    } else {
        match decoded_records::<T>(rows.drop_last()) {
            Err(e) => Err(e),
            Ok(items) => match rows.last() {
                Err(e) => Err("行解析失败: "@ + e),
                Ok(row) => match T::from_row(row) {
                    Some(item) => Ok(items.push(item)),
                    None => Err(decode_failure()),
                },
            },
        }
    }
}

/// The records of the rows that were read and decode, in order; the others are skipped.
pub open spec fn kept_records<T: RowRecord>(rows: Seq<Result<Seq<SqlValueView>, Seq<char>>>) -> Seq<T::V>
    decreases rows.len(),
{
    if rows.len() == 0 {
        Seq::empty()
    } else {
        let rest = kept_records::<T>(rows.drop_last());
        match rows.last() {
            Ok(row) => match T::from_row(row) {
                Some(item) => rest.push(item),
                None => rest,
            },
            Err(_) => rest,
        }
    }
}

/// The views of records.
pub open spec fn record_views<T: View>(v: Seq<T>) -> Seq<T::V> {
    Seq::new(v.len(), |i: int| v[i]@)
}

/// Once the records of a prefix fail, those of the whole rows fail the same way.
pub proof fn lemma_decode_failure_sticks<T: RowRecord>(rows: Seq<Result<Seq<SqlValueView>, Seq<char>>>, k: int, e: Seq<char>)
    requires
        0 <= k <= rows.len(),
        decoded_records::<T>(rows.take(k)) == Err::<Seq<T::V>, Seq<char>>(e),
    ensures
        decoded_records::<T>(rows) == Err::<Seq<T::V>, Seq<char>>(e),
    decreases rows.len() - k,
{
    if k == rows.len() {
        assert(rows.take(k) == rows);
    } else {
        assert(rows.take(k + 1).drop_last() == rows.take(k));
        lemma_decode_failure_sticks::<T>(rows, k + 1, e);
    }
}

/// What a query gives: its records, or the failure with the stage it happened in.
pub open spec fn query_records<T: RowRecord>(outcome: QueryOutcome) -> Result<Seq<T::V>, Seq<char>> {
    match outcome {
        QueryOutcome::PrepareFailed(e) => Err("查询准备失败: "@ + e@),
        QueryOutcome::ExecuteFailed(e) => Err("查询执行失败: "@ + e@),
        QueryOutcome::Rows(rows) => decoded_records::<T>(outcome_rows(rows@)),
    }
}

/// The records a query gave back, up to the first failure.
pub fn decode_records<T: RowRecord>(outcome: QueryOutcome) -> (r: Result<Vec<T>, String>)
    ensures
        match r {
            Ok(v) => query_records::<T>(outcome) == Ok::<Seq<T::V>, Seq<char>>(record_views(v@)),
            Err(e) => query_records::<T>(outcome) == Err::<Seq<T::V>, Seq<char>>(e@),
        },
{
    proof {
        reveal_strlit("");
    }
    let ghost expected = query_records::<T>(outcome);
    match outcome {
        QueryOutcome::PrepareFailed(e) => Err(crate::text::concat3("查询准备失败: ", e.as_str(), "")),
        QueryOutcome::ExecuteFailed(e) => Err(crate::text::concat3("查询执行失败: ", e.as_str(), "")),
        QueryOutcome::Rows(rows) => {
            let ghost all = outcome_rows(rows@);
            let mut items: Vec<T> = Vec::new();
            let n = rows.len();
            let mut i: usize = 0;
            assert(all.take(0) =~= Seq::<Result<Seq<SqlValueView>, Seq<char>>>::empty());
            assert(record_views(items@) =~= Seq::<T::V>::empty());
            while i < n
                invariant
                    n == rows@.len(),
                    all == outcome_rows(rows@),
                    expected == decoded_records::<T>(all),
                    expected == query_records::<T>(outcome),
                    i <= n,
                    decoded_records::<T>(all.take(i as int)) == Ok::<Seq<T::V>, Seq<char>>(record_views(items@)),
                decreases n - i,
            {
                assert(all.take(i as int + 1).drop_last() == all.take(i as int));
                assert(all.take(i as int + 1).last() == all[i as int]);
                match &rows[i] {
                    Err(e) => {
                        assert(all[i as int] == Err::<Seq<SqlValueView>, Seq<char>>(e@));
                        proof {
                            reveal_strlit("");
                        }
                        let m = crate::text::concat3("行解析失败: ", e.as_str(), "");
                        proof {
                            assert(decoded_records::<T>(all.take(i as int + 1)) == Err::<Seq<T::V>, Seq<char>>(m@));
                            lemma_decode_failure_sticks::<T>(all, i as int + 1, m@);
                        }
                        return Err(m);
                    },
                    Ok(row) => {
                        assert(all[i as int] == Ok::<Seq<SqlValueView>, Seq<char>>(row_view(row@)));
                        match T::decode_row(row) {
                            Ok(item) => {
                                let ghost before = items@;
                                let ghost iv = item@;
                                items.push(item);
                                assert(items@.drop_last() =~= before);
                                assert(record_views(items@) =~= record_views(before).push(iv));
                                assert(decoded_records::<T>(all.take(i as int + 1)) == Ok::<Seq<T::V>, Seq<char>>(record_views(before).push(iv)));
                            },
                            Err(e) => {
                                proof {
                                    assert(decoded_records::<T>(all.take(i as int + 1)) == Err::<Seq<T::V>, Seq<char>>(e@));
                                    lemma_decode_failure_sticks::<T>(all, i as int + 1, e@);
                                }
                                return Err(e);
                            },
                        }
                    },
                }
                i = i + 1;
            }
            assert(all.take(n as int) == all);
            Ok(items)
        },
    }
}

/// The records of the rows that were read and decode, in order.
pub fn keep_records<T: RowRecord>(rows: Vec<Result<Vec<SqlValue>, String>>) -> (r: Vec<T>)
    ensures
        record_views(r@) == kept_records::<T>(outcome_rows(rows@)),
{
    let ghost all = outcome_rows(rows@);
    let mut items: Vec<T> = Vec::new();
    let n = rows.len();
    let mut i: usize = 0;
    assert(all.take(0) =~= Seq::<Result<Seq<SqlValueView>, Seq<char>>>::empty());
    assert(record_views(items@) =~= Seq::<T::V>::empty());
    while i < n
        invariant
            n == rows@.len(),
            all == outcome_rows(rows@),
            i <= n,
            kept_records::<T>(all.take(i as int)) == record_views(items@),
        decreases n - i,
    {
        assert(all.take(i as int + 1).drop_last() == all.take(i as int));
        assert(all.take(i as int + 1).last() == all[i as int]);
        match &rows[i] {
            Err(e) => {
                assert(all[i as int] == Err::<Seq<SqlValueView>, Seq<char>>(e@));
            },
            Ok(row) => {
                assert(all[i as int] == Ok::<Seq<SqlValueView>, Seq<char>>(row_view(row@)));
                match T::decode_row(row) {
                    Ok(item) => {
                        let ghost before = items@;
                        let ghost iv = item@;
                        items.push(item);
                        assert(items@.drop_last() =~= before);
                        assert(record_views(items@) =~= record_views(before).push(iv));
                    },
                    Err(_) => {},
                }
            },
        }
        i = i + 1;
    }
    assert(all.take(n as int) == all);
    items
}

} // verus!
