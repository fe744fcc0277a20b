//! Custom prompt templates.
use vstd::prelude::*;
use crate::text::{opt_text, copy_opt_text, concat3};
use crate::storage::database::{
    SqlValue, SqlValueView, QueryOutcome, decode_failure, flag_value, decode_failure_message, decode_int, decode_opt_int,
    decode_text, decode_opt_text, int_value, opt_int_value, text_value, opt_text_value, row_view, RowRecord,
    query_records, record_views, decode_records, kept_records, keep_records, outcome_rows,
};

verus! {

/// A custom prompt template.
#[derive(Debug, Clone)]
pub struct CustomPrompt {
    pub id: String,
    pub name: String,
    pub description: Option<String>,
    pub prompt: String,
    pub content_types: Option<String>,
    pub sort_order: i32,
    pub created_at: String,
    pub updated_at: String,
}

/// The mathematical value of a `CustomPrompt`.
pub struct CustomPromptView {
    pub id: Seq<char>,
    pub name: Seq<char>,
    pub description: Option<Seq<char>>,
    pub prompt: Seq<char>,
    pub content_types: Option<Seq<char>>,
    pub sort_order: i32,
    pub created_at: Seq<char>,
    pub updated_at: Seq<char>,
}

impl View for CustomPrompt {
    type V = CustomPromptView;

    open spec fn view(&self) -> CustomPromptView {
        CustomPromptView {
            id: self.id@,
            name: self.name@,
            description: opt_text(self.description),
            prompt: self.prompt@,
            content_types: opt_text(self.content_types),
            sort_order: self.sort_order,
            created_at: self.created_at@,
            updated_at: self.updated_at@,
        }
    }
}

impl CustomPrompt {
    /// A copy of this value.
    pub fn duplicate(&self) -> (r: CustomPrompt)
        ensures
            r@ == self@,
    {
        let r = CustomPrompt {
            id: self.id.clone(),
            name: self.name.clone(),
            description: copy_opt_text(&self.description),
            prompt: self.prompt.clone(),
            content_types: copy_opt_text(&self.content_types),
            sort_order: self.sort_order,
            created_at: self.created_at.clone(),
            updated_at: self.updated_at.clone(),
        };
        r
    }
}

/// The 32-bit integer in a column.
pub open spec fn i32_value(v: SqlValueView) -> Option<i32> {
    match v {
        SqlValueView::Int(i) => if i32::MIN <= i <= i32::MAX { Some(i as i32) } else { None },
        _ => None,
    }
}

/// Decodes a 32-bit integer column.
pub fn decode_i32(v: &SqlValue) -> (r: Result<i32, String>)
    ensures
        match r {
            Ok(i) => i32_value(v@) == Some(i),
            Err(e) => i32_value(v@) is None && e@ == decode_failure(),
        },
{
    match v {
        SqlValue::Int(i) => {
            if *i >= -2147483648 && *i <= 2147483647 {
                Ok(*i as i32)
            } else {
                Err(decode_failure_message())
            }
        },
        _ => Err(decode_failure_message()),
    }
}

impl RowRecord for CustomPrompt {
    open spec fn from_row(row: Seq<SqlValueView>) -> Option<CustomPromptView> {
        if row.len() < 8 {
            None
        } else {
            match (text_value(row[0]), text_value(row[1]), opt_text_value(row[2]), text_value(row[3]),
                opt_text_value(row[4]), i32_value(row[5]), text_value(row[6]), text_value(row[7])) {
                (Some(id), Some(name), Some(description), Some(prompt), Some(content_types), Some(sort_order),
                    Some(created_at), Some(updated_at)) => Some(CustomPromptView {
                    id, name, description, prompt, content_types, sort_order, created_at, updated_at,
                }),
                _ => None,
            }
        }
    }

    fn decode_row(row: &Vec<SqlValue>) -> (r: Result<CustomPrompt, String>) {
        if row.len() < 8 {
            return Err(decode_failure_message());
        }
        let id = match decode_text(&row[0]) { Ok(x) => x, Err(e) => return Err(e) };
        let name = match decode_text(&row[1]) { Ok(x) => x, Err(e) => return Err(e) };
        let description = match decode_opt_text(&row[2]) { Ok(x) => x, Err(e) => return Err(e) };
        let prompt = match decode_text(&row[3]) { Ok(x) => x, Err(e) => return Err(e) };
        let content_types = match decode_opt_text(&row[4]) { Ok(x) => x, Err(e) => return Err(e) };
        let sort_order = match decode_i32(&row[5]) { Ok(x) => x, Err(e) => return Err(e) };
        let created_at = match decode_text(&row[6]) { Ok(x) => x, Err(e) => return Err(e) };
        let updated_at = match decode_text(&row[7]) { Ok(x) => x, Err(e) => return Err(e) };
        Ok(CustomPrompt { id, name, description, prompt, content_types, sort_order, created_at, updated_at })
    }
}

/// The prompts listed by a query (in sort order), up to the first failure.
pub fn list_prompts(outcome: QueryOutcome) -> (r: Result<Vec<CustomPrompt>, String>)
    ensures
        match r {
            Ok(v) => query_records::<CustomPrompt>(outcome) == Ok::<Seq<CustomPromptView>, Seq<char>>(record_views(v@)),
            Err(e) => query_records::<CustomPrompt>(outcome) == Err::<Seq<CustomPromptView>, Seq<char>>(e@),
        },
{
    decode_records::<CustomPrompt>(outcome)
}

/// The prompt with an id, from a single-row query's outcome: none when no row came back;
/// other failures read "查询 Prompt 失败: " and the message.
pub fn get_prompt(outcome: Result<Option<Vec<SqlValue>>, String>) -> (r: Result<Option<CustomPrompt>, String>)
    ensures
        match outcome {
            Err(e) => r matches Err(m) && m@ == "查询 Prompt 失败: "@ + e@,
            Ok(None) => r matches Ok(None),
            Ok(Some(row)) => match CustomPrompt::from_row(row_view(row@)) {
                Some(p) => r matches Ok(Some(q)) && q@ == p,
                None => r matches Err(m) && m@ == "查询 Prompt 失败: "@ + decode_failure(),
            },
        },
{
    proof {
        reveal_strlit("");
    }
    match outcome {
        Err(e) => Err(concat3("查询 Prompt 失败: ", e.as_str(), "")),
        Ok(None) => Ok(None),
        Ok(Some(row)) => match CustomPrompt::decode_row(&row) {
            Ok(p) => Ok(Some(p)),
            Err(e) => Err(concat3("查询 Prompt 失败: ", e.as_str(), "")),
        },
    }
}

} // verus!
