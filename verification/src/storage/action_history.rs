//! The action history: what ran, on what, how long it took, and the statistics drawn from it.
use vstd::prelude::*;
use crate::text::{opt_text, copy_opt_text, concat3};
use crate::storage::database::{
    SqlValue, SqlValueView, QueryOutcome, decode_failure, decode_failure_message, decode_int, decode_opt_int,
    decode_text, decode_opt_text, int_value, opt_int_value, text_value, opt_text_value, row_view, RowRecord,
    query_records, record_views, decode_records, kept_records, keep_records, outcome_rows,
};

verus! {

/// A record of an action run.
#[derive(Debug, Clone)]
pub struct ActionHistoryItem {
    pub id: i64,
    pub clipboard_id: Option<i64>,
    pub action_id: String,
    pub input_text: Option<String>,
    pub output_text: Option<String>,
    pub duration_ms: Option<i64>,
    pub model_used: Option<String>,
    pub created_at: String,
}

/// The mathematical value of a `ActionHistoryItem`.
pub struct ActionHistoryItemView {
    pub id: i64,
    pub clipboard_id: Option<i64>,
    pub action_id: Seq<char>,
    pub input_text: Option<Seq<char>>,
    pub output_text: Option<Seq<char>>,
    pub duration_ms: Option<i64>,
    pub model_used: Option<Seq<char>>,
    pub created_at: Seq<char>,
}

impl View for ActionHistoryItem {
    type V = ActionHistoryItemView;

    open spec fn view(&self) -> ActionHistoryItemView {
        ActionHistoryItemView {
            id: self.id,
            clipboard_id: self.clipboard_id,
            action_id: self.action_id@,
            input_text: opt_text(self.input_text),
            output_text: opt_text(self.output_text),
            duration_ms: self.duration_ms,
            model_used: opt_text(self.model_used),
            created_at: self.created_at@,
        }
    }
}

impl ActionHistoryItem {
    /// A copy of this value.
    pub fn duplicate(&self) -> (r: ActionHistoryItem)
        ensures
            r@ == self@,
    {
        let r = ActionHistoryItem {
            id: self.id,
            clipboard_id: self.clipboard_id,
            action_id: self.action_id.clone(),
            input_text: copy_opt_text(&self.input_text),
            output_text: copy_opt_text(&self.output_text),
            duration_ms: self.duration_ms,
            model_used: copy_opt_text(&self.model_used),
            created_at: self.created_at.clone(),
        };
        r
    }
}

impl RowRecord for ActionHistoryItem {
    open spec fn from_row(row: Seq<SqlValueView>) -> Option<ActionHistoryItemView> {
        if row.len() < 8 {
            None
        } else {
            match (int_value(row[0]), opt_int_value(row[1]), text_value(row[2]), opt_text_value(row[3]),
                opt_text_value(row[4]), opt_int_value(row[5]), opt_text_value(row[6]), text_value(row[7])) {
                (Some(id), Some(clipboard_id), Some(action_id), Some(input_text), Some(output_text),
                    Some(duration_ms), Some(model_used), Some(created_at)) => Some(ActionHistoryItemView {
                    id, clipboard_id, action_id, input_text, output_text, duration_ms, model_used, created_at,
                }),
                _ => None,
            }
        }
    }

    fn decode_row(row: &Vec<SqlValue>) -> (r: Result<ActionHistoryItem, String>) {
        if row.len() < 8 {
            return Err(decode_failure_message());
        }
        let id = match decode_int(&row[0]) { Ok(x) => x, Err(e) => return Err(e) };
        let clipboard_id = match decode_opt_int(&row[1]) { Ok(x) => x, Err(e) => return Err(e) };
        let action_id = match decode_text(&row[2]) { Ok(x) => x, Err(e) => return Err(e) };
        let input_text = match decode_opt_text(&row[3]) { Ok(x) => x, Err(e) => return Err(e) };
        let output_text = match decode_opt_text(&row[4]) { Ok(x) => x, Err(e) => return Err(e) };
        let duration_ms = match decode_opt_int(&row[5]) { Ok(x) => x, Err(e) => return Err(e) };
        let model_used = match decode_opt_text(&row[6]) { Ok(x) => x, Err(e) => return Err(e) };
        let created_at = match decode_text(&row[7]) { Ok(x) => x, Err(e) => return Err(e) };
        Ok(ActionHistoryItem { id, clipboard_id, action_id, input_text, output_text, duration_ms, model_used, created_at })
    }
}

/// The action runs of a history listing, up to the first failure.
pub fn list_action_history(outcome: QueryOutcome) -> (r: Result<Vec<ActionHistoryItem>, String>)
    ensures
        match r {
            Ok(v) => query_records::<ActionHistoryItem>(outcome) == Ok::<Seq<ActionHistoryItemView>, Seq<char>>(record_views(v@)),
            Err(e) => query_records::<ActionHistoryItem>(outcome) == Err::<Seq<ActionHistoryItemView>, Seq<char>>(e@),
        },
{
    decode_records::<ActionHistoryItem>(outcome)
}

/// How often an action ran, and for how long in all.
#[derive(Debug, Clone)]
pub struct ActionUsageStat {
    pub action_id: String,
    pub display_name: String,
    pub count: i64,
    pub total_duration_ms: i64,
}

/// The mathematical value of a `ActionUsageStat`.
pub struct ActionUsageStatView {
    pub action_id: Seq<char>,
    pub display_name: Seq<char>,
    pub count: i64,
    pub total_duration_ms: i64,
}

impl View for ActionUsageStat {
    type V = ActionUsageStatView;

    open spec fn view(&self) -> ActionUsageStatView {
        ActionUsageStatView {
            action_id: self.action_id@,
            display_name: self.display_name@,
            count: self.count,
            total_duration_ms: self.total_duration_ms,
        }
    }
}

impl ActionUsageStat {
    /// A copy of this value.
    pub fn duplicate(&self) -> (r: ActionUsageStat)
        ensures
            r@ == self@,
    {
        let r = ActionUsageStat {
            action_id: self.action_id.clone(),
            display_name: self.display_name.clone(),
            count: self.count,
            total_duration_ms: self.total_duration_ms,
        };
        r
    }
}

/// How many actions ran on a day.
#[derive(Debug, Clone)]
pub struct DailyStat {
    pub date: String,
    pub count: i64,
}

/// The mathematical value of a `DailyStat`.
pub struct DailyStatView {
    pub date: Seq<char>,
    pub count: i64,
}

impl View for DailyStat {
    type V = DailyStatView;

    open spec fn view(&self) -> DailyStatView {
        DailyStatView {
            date: self.date@,
            count: self.count,
        }
    }
}

impl DailyStat {
    /// A copy of this value.
    pub fn duplicate(&self) -> (r: DailyStat)
        ensures
            r@ == self@,
    {
        let r = DailyStat {
            date: self.date.clone(),
            count: self.count,
        };
        r
    }
}

/// The statistics overview.
#[derive(Debug, Clone)]
pub struct ActionStats {
    /// How many actions ran.
    pub total_count: i64,
    /// Their total duration.
    pub total_duration_ms: i64,
    /// The most used actions.
    pub top_actions: Vec<ActionUsageStat>,
    /// Runs per day over the last 30 days.
    pub daily_trend: Vec<DailyStat>,
}

/// The mathematical value of a `ActionStats`.
pub struct ActionStatsView {
    pub total_count: i64,
    pub total_duration_ms: i64,
    pub top_actions: Seq<ActionUsageStatView>,
    pub daily_trend: Seq<DailyStatView>,
}

impl View for ActionStats {
    type V = ActionStatsView;

    open spec fn view(&self) -> ActionStatsView {
        ActionStatsView {
            total_count: self.total_count,
            total_duration_ms: self.total_duration_ms,
            top_actions: Seq::new(self.top_actions@.len(), |i: int| self.top_actions@[i]@),
            daily_trend: Seq::new(self.daily_trend@.len(), |i: int| self.daily_trend@[i]@),
        }
    }
}

impl ActionStats {
    /// A copy of this value.
    pub fn duplicate(&self) -> (r: ActionStats)
        ensures
            r@ == self@,
    {
        let r = ActionStats {
            total_count: self.total_count,
            total_duration_ms: self.total_duration_ms,
            top_actions: copy_action_usage_stat_list(&self.top_actions),
            daily_trend: copy_daily_stat_list(&self.daily_trend),
        };
        assert(r@.top_actions =~= self@.top_actions);
        assert(r@.daily_trend =~= self@.daily_trend);
        r
    }
}

/// A copy of a list of `ActionUsageStat` values.
pub fn copy_action_usage_stat_list(v: &Vec<ActionUsageStat>) -> (r: Vec<ActionUsageStat>)
    ensures
        r@.len() == v@.len(),
        forall|i: int| 0 <= i < v@.len() ==> (#[trigger] r@[i])@ == v@[i]@,
{
    let mut r: Vec<ActionUsageStat> = Vec::new();
    let mut i: usize = 0;
    while i < v.len()
        invariant
            i <= v@.len(),
            r@.len() == i,
            forall|k: int| 0 <= k < i ==> (#[trigger] r@[k])@ == v@[k]@,
        decreases v@.len() - i,
    {
        r.push(v[i].duplicate());
        i = i + 1;
    }
    r
}

/// A copy of a list of `DailyStat` values.
pub fn copy_daily_stat_list(v: &Vec<DailyStat>) -> (r: Vec<DailyStat>)
    ensures
        r@.len() == v@.len(),
        forall|i: int| 0 <= i < v@.len() ==> (#[trigger] r@[i])@ == v@[i]@,
{
    let mut r: Vec<DailyStat> = Vec::new();
    let mut i: usize = 0;
    while i < v.len()
        invariant
            i <= v@.len(),
            r@.len() == i,
            forall|k: int| 0 <= k < i ==> (#[trigger] r@[k])@ == v@[k]@,
        decreases v@.len() - i,
    {
        r.push(v[i].duplicate());
        i = i + 1;
    }
    r
}

impl RowRecord for ActionUsageStat {
    /// A row of action id, count and total duration; the display name is the id.
    open spec fn from_row(row: Seq<SqlValueView>) -> Option<ActionUsageStatView> {
        if row.len() < 3 {
            None
        } else {
            match (text_value(row[0]), int_value(row[1]), int_value(row[2])) {
                (Some(id), Some(count), Some(total)) => Some(ActionUsageStatView {
                    action_id: id, display_name: id, count, total_duration_ms: total,
                }),
                _ => None,
            }
        }
    }

    fn decode_row(row: &Vec<SqlValue>) -> (r: Result<ActionUsageStat, String>) {
        if row.len() < 3 {
            return Err(decode_failure_message());
        }
        let action_id = match decode_text(&row[0]) { Ok(x) => x, Err(e) => return Err(e) };
        let count = match decode_int(&row[1]) { Ok(x) => x, Err(e) => return Err(e) };
        let total_duration_ms = match decode_int(&row[2]) { Ok(x) => x, Err(e) => return Err(e) };
        Ok(ActionUsageStat { display_name: action_id.clone(), action_id, count, total_duration_ms })
    }
}

impl RowRecord for DailyStat {
    open spec fn from_row(row: Seq<SqlValueView>) -> Option<DailyStatView> {
        if row.len() < 2 {
            None
        } else {
            match (text_value(row[0]), int_value(row[1])) {
                (Some(date), Some(count)) => Some(DailyStatView { date, count }),
                _ => None,
            }
        }
    }

    fn decode_row(row: &Vec<SqlValue>) -> (r: Result<DailyStat, String>) {
        if row.len() < 2 {
            return Err(decode_failure_message());
        }
        let date = match decode_text(&row[0]) { Ok(x) => x, Err(e) => return Err(e) };
        let count = match decode_int(&row[1]) { Ok(x) => x, Err(e) => return Err(e) };
        Ok(DailyStat { date, count })
    }
}

/// The ten most run actions, with their run counts and total durations, most run first.
pub const TOP_ACTIONS_SQL: &'static str = "SELECT action_id, COUNT(*) as cnt, COALESCE(SUM(duration_ms), 0) as dur FROM action_history GROUP BY action_id ORDER BY cnt DESC LIMIT 10";

/// The number of runs on each of the last thirty days that had any, oldest first.
pub const DAILY_ACTIONS_SQL: &'static str = "SELECT date(created_at) as d, COUNT(*) as cnt FROM action_history WHERE created_at >= datetime('now', '-30 days', 'localtime') GROUP BY d ORDER BY d ASC";

/// The run count of every action, most run first.
pub const ACTION_USAGE_SQL: &'static str = "SELECT action_id, COUNT(*) as cnt FROM action_history GROUP BY action_id ORDER BY cnt DESC";

/// The totals query: the number of runs and their total duration.
pub const TOTALS_SQL: &'static str = "SELECT COUNT(*), COALESCE(SUM(duration_ms), 0) FROM action_history";

/// The rows kept of a statistics query, or its failure: "Prepare failed: " or
/// "Query failed: " and the database's message. Rows that cannot be read are skipped.
pub open spec fn stats_rows<T: RowRecord>(outcome: QueryOutcome) -> Result<Seq<T::V>, Seq<char>> {
    match outcome {
        QueryOutcome::PrepareFailed(e) => Err("Prepare failed: "@ + e@),
        QueryOutcome::ExecuteFailed(e) => Err("Query failed: "@ + e@),
        QueryOutcome::Rows(rows) => Ok(kept_records::<T>(outcome_rows(rows@))),
    }
}

/// The rows kept of a statistics query.
pub fn stats_records<T: RowRecord>(outcome: QueryOutcome) -> (r: Result<Vec<T>, String>)
    ensures
        match r {
            Ok(v) => stats_rows::<T>(outcome) == Ok::<Seq<T::V>, Seq<char>>(record_views(v@)),
            Err(e) => stats_rows::<T>(outcome) == Err::<Seq<T::V>, Seq<char>>(e@),
        },
{
    proof {
        reveal_strlit("");
    }
    match outcome {
        QueryOutcome::PrepareFailed(e) => Err(concat3("Prepare failed: ", e.as_str(), "")),
        QueryOutcome::ExecuteFailed(e) => Err(concat3("Query failed: ", e.as_str(), "")),
        QueryOutcome::Rows(rows) => Ok(keep_records::<T>(rows)),
    }
}

/// The statistics overview from the three queries' outcomes, in the order they run: the
/// totals (a failure reads "Query failed: " and the message), the most used actions and
/// the daily trend. The display name of each action is its id.
pub fn get_action_stats(totals: Result<(i64, i64), String>, top: QueryOutcome, daily: QueryOutcome) -> (r: Result<ActionStats, String>)
    ensures
        match totals {
            Err(e) => r matches Err(m) && m@ == "Query failed: "@ + e@,
            Ok((count, duration)) => match (stats_rows::<ActionUsageStat>(top), stats_rows::<DailyStat>(daily)) {
                (Err(e), _) => r matches Err(m) && m@ == e,
                (Ok(_), Err(e)) => r matches Err(m) && m@ == e,
                (Ok(t), Ok(d)) => r matches Ok(s) && s@ == (ActionStatsView {
                    total_count: count,
                    total_duration_ms: duration,
                    top_actions: t,
                    daily_trend: d,
                }),
            },
        },
{
    proof {
        reveal_strlit("");
    }
    let (total_count, total_duration_ms) = match totals {
        Ok(t) => t,
        Err(e) => return Err(concat3("Query failed: ", e.as_str(), "")),
    };
    let top_actions = match stats_records::<ActionUsageStat>(top) {
        Ok(v) => v,
        Err(e) => return Err(e),
    };
    let daily_trend = match stats_records::<DailyStat>(daily) {
        Ok(v) => v,
        Err(e) => return Err(e),
    };
    let s = ActionStats { total_count, total_duration_ms, top_actions, daily_trend };
    assert(s@.top_actions =~= record_views(s.top_actions@));
    assert(s@.daily_trend =~= record_views(s.daily_trend@));
    Ok(s)
}

impl RowRecord for (String, i64) {
    /// A row of an action id and how often it ran.
    open spec fn from_row(row: Seq<SqlValueView>) -> Option<(Seq<char>, i64)> {
        if row.len() < 2 {
            None
        } else {
            match (text_value(row[0]), int_value(row[1])) {
                (Some(action_id), Some(count)) => Some((action_id, count)),
                _ => None,
            }
        }
    }

    fn decode_row(row: &Vec<SqlValue>) -> (r: Result<(String, i64), String>) {
        if row.len() < 2 {
            return Err(decode_failure_message());
        }
        let action_id = match decode_text(&row[0]) { Ok(x) => x, Err(e) => return Err(e) };
        let count = match decode_int(&row[1]) { Ok(x) => x, Err(e) => return Err(e) };
        Ok((action_id, count))
    }
}

/// How often each action ran (the grouping query's outcome is handed in), up to the first
/// failure.
pub fn action_usage_stats(outcome: QueryOutcome) -> (r: Result<Vec<(String, i64)>, String>)
    ensures
        match r {
            Ok(v) => query_records::<(String, i64)>(outcome) == Ok::<Seq<(Seq<char>, i64)>, Seq<char>>(record_views(v@)),
            Err(e) => query_records::<(String, i64)>(outcome) == Err::<Seq<(Seq<char>, i64)>, Seq<char>>(e@),
        },
{
    decode_records::<(String, i64)>(outcome)
}

} // verus!
