//! Conversion of TSV/CSV tables to Markdown and JSON.
use vstd::prelude::*;
use crate::actions::traits::{kinds_of, ActionInfo, ActionInput, ActionOutput, InfoView};
use crate::classifier::{ContentKind, ContentType};
use crate::foreign::{json_records, json_records_pretty, records_view};
use crate::text::{
    append_chars, append_str, chars_of, contains, contains_chars, join, join_chars, lines, lines_of,
    split, split_of, string_from_chars, trim, trim_chars,
};

verus! {

/// The "Convert to Markdown Table" action.
pub struct TableToMarkdownAction;

impl TableToMarkdownAction {
    /// What the registry knows of this action.
    pub open spec fn info_spec(&self) -> InfoView {
        InfoView {
            id: "table_to_markdown"@,
            display_name: "转换为 Markdown 表格"@,
            display_name_en: "Convert to Markdown Table"@,
            description: "将 TSV/CSV 数据转换为 Markdown 表格格式"@,
            description_en: "Convert TSV/CSV data to Markdown table format"@,
            supported_types: seq![ContentKind::TableData("tsv"@), ContentKind::TableData("csv"@)],
            requires_model: false,
            estimated_duration_ms: 10,
        }
    }

    /// Unique id.
    pub fn id(&self) -> (r: &'static str)
        ensures
            r@ == self.info_spec().id,
    {
        "table_to_markdown"
    }

    /// Display name.
    pub fn display_name(&self) -> (r: &'static str)
        ensures
            r@ == self.info_spec().display_name,
    {
        "转换为 Markdown 表格"
    }

    /// Display name in English.
    pub fn display_name_en(&self) -> (r: &'static str)
        ensures
            r@ == self.info_spec().display_name_en,
    {
        "Convert to Markdown Table"
    }

    /// Description.
    pub fn description(&self) -> (r: &'static str)
        ensures
            r@ == self.info_spec().description,
    {
        "将 TSV/CSV 数据转换为 Markdown 表格格式"
    }

    /// Description in English.
    pub fn description_en(&self) -> (r: &'static str)
        ensures
            r@ == self.info_spec().description_en,
    {
        "Convert TSV/CSV data to Markdown table format"
    }

    /// The content types this action handles.
    pub fn supported_types(&self) -> (r: Vec<ContentType>)
        ensures
            kinds_of(r@) == self.info_spec().supported_types,
    {
        let mut v: Vec<ContentType> = Vec::new();
        v.push(ContentType::TableData("tsv".to_owned()));
        v.push(ContentType::TableData("csv".to_owned()));
        assert(kinds_of(v@) =~= self.info_spec().supported_types);
        v
    }

    /// Whether this action needs an inference backend.
    pub fn requires_model(&self) -> (r: bool)
        ensures
            r == self.info_spec().requires_model,
    {
        false
    }

    /// Expected duration, in milliseconds.
    pub fn estimated_duration_ms(&self) -> (r: u64)
        ensures
            r == self.info_spec().estimated_duration_ms,
    {
        10
    }

    /// What the registry keeps of this action.
    pub fn info(&self) -> (r: ActionInfo)
        ensures
            r@ == self.info_spec(),
    {
        ActionInfo {
            id: self.id().to_owned(),
            display_name: self.display_name().to_owned(),
            display_name_en: self.display_name_en().to_owned(),
            description: self.description().to_owned(),
            description_en: self.description_en().to_owned(),
            supported_types: self.supported_types(),
            requires_model: self.requires_model(),
            estimated_duration_ms: self.estimated_duration_ms(),
        }
    }
}

/// The "Convert to JSON Array" action.
pub struct TableToJsonAction;

impl TableToJsonAction {
    /// What the registry knows of this action.
    pub open spec fn info_spec(&self) -> InfoView {
        InfoView {
            id: "table_to_json"@,
            display_name: "转换为 JSON 数组"@,
            display_name_en: "Convert to JSON Array"@,
            description: "将 TSV/CSV 数据转换为 JSON 对象数组"@,
            description_en: "Convert TSV/CSV data to JSON object array"@,
            supported_types: seq![ContentKind::TableData("tsv"@), ContentKind::TableData("csv"@)],
            requires_model: false,
            estimated_duration_ms: 10,
        }
    }

    /// Unique id.
    pub fn id(&self) -> (r: &'static str)
        ensures
            r@ == self.info_spec().id,
    {
        "table_to_json"
    }

    /// Display name.
    pub fn display_name(&self) -> (r: &'static str)
        ensures
            r@ == self.info_spec().display_name,
    {
        "转换为 JSON 数组"
    }

    /// Display name in English.
    pub fn display_name_en(&self) -> (r: &'static str)
        ensures
            r@ == self.info_spec().display_name_en,
    {
        "Convert to JSON Array"
    }

    /// Description.
    pub fn description(&self) -> (r: &'static str)
        ensures
            r@ == self.info_spec().description,
    {
        "将 TSV/CSV 数据转换为 JSON 对象数组"
    }

    /// Description in English.
    pub fn description_en(&self) -> (r: &'static str)
        ensures
            r@ == self.info_spec().description_en,
    {
        "Convert TSV/CSV data to JSON object array"
    }

    /// The content types this action handles.
    pub fn supported_types(&self) -> (r: Vec<ContentType>)
        ensures
            kinds_of(r@) == self.info_spec().supported_types,
    {
        let mut v: Vec<ContentType> = Vec::new();
        v.push(ContentType::TableData("tsv".to_owned()));
        v.push(ContentType::TableData("csv".to_owned()));
        assert(kinds_of(v@) =~= self.info_spec().supported_types);
        v
    }

    /// Whether this action needs an inference backend.
    pub fn requires_model(&self) -> (r: bool)
        ensures
            r == self.info_spec().requires_model,
    {
        false
    }

    /// Expected duration, in milliseconds.
    pub fn estimated_duration_ms(&self) -> (r: u64)
        ensures
            r == self.info_spec().estimated_duration_ms,
    {
        10
    }

    /// What the registry keeps of this action.
    pub fn info(&self) -> (r: ActionInfo)
        ensures
            r@ == self.info_spec(),
    {
        ActionInfo {
            id: self.id().to_owned(),
            display_name: self.display_name().to_owned(),
            display_name_en: self.display_name_en().to_owned(),
            description: self.description().to_owned(),
            description_en: self.description_en().to_owned(),
            supported_types: self.supported_types(),
            requires_model: self.requires_model(),
            estimated_duration_ms: self.estimated_duration_ms(),
        }
    }
}


/// The cell delimiter: a tab for TSV, a comma for CSV; otherwise a tab when the text holds one,
/// else a comma.
pub open spec fn table_delimiter(content: Seq<char>, ct: ContentKind) -> char {
    if ct == ContentKind::TableData("tsv"@) {
        '\t'
    } else if ct == ContentKind::TableData("csv"@) {
        ','
    } else if contains(content, "\t"@) {
        '\t'
    } else {
        ','
    }
}

/// The cells of a line: its pieces between delimiters, each trimmed.
pub open spec fn row_cells(line: Seq<char>, d: char) -> Seq<Seq<char>> {
    Seq::new(split(line, d).len(), |i: int| trim(split(line, d)[i]))
}

/// The rows of the non-blank lines, in order.
pub open spec fn rows_from_lines(ls: Seq<Seq<char>>, d: char) -> Seq<Seq<Seq<char>>>
    decreases ls.len(),
{
    if ls.len() == 0 {
        Seq::empty()
    } else {
        rows_from_lines(ls.drop_last(), d) + if trim(ls.last()).len() == 0 {
            Seq::<Seq<Seq<char>>>::empty()
        } else {
            seq![row_cells(ls.last(), d)]
        }
    }
}

/// The table in a text: one row per non-blank line, cells split at the delimiter and trimmed.
pub open spec fn table_rows(content: Seq<char>, d: char) -> Seq<Seq<Seq<char>>> {
    rows_from_lines(lines(content), d)
}

/// The views of a table of strings.
pub open spec fn table_view(v: Seq<Vec<String>>) -> Seq<Seq<Seq<char>>> {
    Seq::new(v.len(), |i: int| Seq::new(v[i]@.len(), |j: int| v[i]@[j]@))
}

/// The delimiter for a text and its content type.
pub fn delimiter_for(content: &[char], content_type: &ContentType) -> (r: char)
    ensures
        r == table_delimiter(content@, content_type@),
{
    let tsv = ContentType::TableData("tsv".to_owned());
    let csv = ContentType::TableData("csv".to_owned());
    if content_type.same_as(&tsv) {
        '\t'
    } else if content_type.same_as(&csv) {
        ','
    } else if contains_chars(content, &chars_of("\t")) {
        '\t'
    } else {
        ','
    }
}

/// The trimmed cells of a line.
pub fn cells_of(line: &[char], d: char) -> (r: Vec<String>)
    ensures
        Seq::new(r@.len(), |j: int| r@[j]@) == row_cells(line@, d),
{
    let pieces = split_of(line, d);
    let ghost pv = pieces@.map_values(|l: Vec<char>| l@);
    let mut cells: Vec<String> = Vec::new();
    let mut i: usize = 0;
    while i < pieces.len()
        invariant
            i <= pieces@.len(),
            pv == pieces@.map_values(|l: Vec<char>| l@),
            pv == split(line@, d),
            cells@.len() == i,
            forall|k: int| 0 <= k < i ==> (#[trigger] cells@[k])@ == trim(pv[k]),
        decreases pieces@.len() - i,
    {
        assert(pv[i as int] == pieces@[i as int]@);
        let t = trim_chars(&pieces[i]);
        cells.push(string_from_chars(&t));
        i = i + 1;
    }
    assert(Seq::new(cells@.len(), |j: int| cells@[j]@) =~= row_cells(line@, d));
    cells
}

/// Parses a table: one row per non-blank line, cells split at the delimiter (tab or comma, as
/// the content type or the text suggests) and trimmed. Fails when no line holds anything.
pub fn parse_table(content: &str, content_type: &ContentType) -> (r: Result<Vec<Vec<String>>, String>)
    ensures
        ({
            let rows = table_rows(content@, table_delimiter(content@, content_type@));
            match r {
                Ok(v) => table_view(v@) == rows && rows.len() > 0,
                Err(e) => e@ == "无法解析表格数据"@ && rows.len() == 0,
            }
        }),
{
    let text = chars_of(content);
    let d = delimiter_for(&text, content_type);
    let ls = lines_of(&text);
    let ghost lv = ls@.map_values(|l: Vec<char>| l@);
    let mut rows: Vec<Vec<String>> = Vec::new();
    let mut i: usize = 0;
    while i < ls.len()
        invariant
            i <= ls@.len(),
            lv == ls@.map_values(|l: Vec<char>| l@),
            lv == lines(content@),
            table_view(rows@) == rows_from_lines(lv.take(i as int), d),
        decreases ls@.len() - i,
    {
        assert(lv.take(i + 1).drop_last() =~= lv.take(i as int));
        assert(lv.take(i + 1).last() == ls@[i as int]@);
        let ghost before = table_view(rows@);
        let t = trim_chars(&ls[i]);
        if t.len() > 0 {
            let cells = cells_of(&ls[i], d);
            let ghost cv = Seq::new(cells@.len(), |j: int| cells@[j]@);
            rows.push(cells);
            assert(table_view(rows@) =~= before + seq![cv]) by {
                assert(table_view(rows@)[before.len() as int] =~= cv);
            }
        } else {
            assert(before + Seq::<Seq<Seq<char>>>::empty() =~= before);
        }
        i = i + 1;
    }
    assert(lv.take(ls@.len() as int) =~= lv);
    if rows.len() == 0 {
        return Err("无法解析表格数据".to_owned());
    }
    Ok(rows)
}

/// A Markdown table row: "| a | b |" and a line break.
pub open spec fn md_row(cells: Seq<Seq<char>>) -> Seq<char> {
    "| "@ + join(cells, " | "@) + " |\n"@
}

/// The separator line under a header of `n` cells, without its line break.
pub open spec fn md_separator(n: nat) -> Seq<char>
    decreases n,
{
    if n == 0 {
        "|"@
    } else {
        md_separator((n - 1) as nat) + " --- |"@
    }
}

/// The Markdown rows of a list of rows.
pub open spec fn md_rows(rows: Seq<Seq<Seq<char>>>) -> Seq<char>
    decreases rows.len(),
{
    if rows.len() == 0 {
        Seq::empty()
    } else {
        md_rows(rows.drop_last()) + md_row(rows.last())
    }
}

/// A Markdown table whose first row is the header.
pub open spec fn markdown_table(rows: Seq<Seq<Seq<char>>>) -> Seq<char> {
    md_row(rows[0]) + md_separator(rows[0].len()) + "\n"@ + md_rows(rows.skip(1))
}

/// Appends a Markdown row.
fn push_md_row(out: &mut Vec<char>, row: &Vec<String>)
    ensures
        final(out)@ == old(out)@ + md_row(Seq::new(row@.len(), |j: int| row@[j]@)),
{
    let mut cells: Vec<Vec<char>> = Vec::new();
    let mut i: usize = 0;
    while i < row.len()
        invariant
            i <= row@.len(),
            cells@.len() == i,
            forall|k: int| 0 <= k < i ==> (#[trigger] cells@[k])@ == row@[k]@,
        decreases row@.len() - i,
    {
        cells.push(chars_of(row[i].as_str()));
        i = i + 1;
    }
    assert(cells@.map_values(|l: Vec<char>| l@) =~= Seq::new(row@.len(), |j: int| row@[j]@));
    let joined = join_chars(&cells, &chars_of(" | "));
    append_str(out, "| ");
    append_chars(out, &joined);
    append_str(out, " |\n");
    assert(out@ =~= old(out)@ + md_row(Seq::new(row@.len(), |j: int| row@[j]@)));
}

/// Renders rows as a Markdown table, the first row as header.
pub fn render_markdown_table(rows: &Vec<Vec<String>>) -> (r: String)
    requires
        rows@.len() > 0,
    ensures
        r@ == markdown_table(table_view(rows@)),
{
    let ghost tv = table_view(rows@);
    let mut md: Vec<char> = Vec::new();
    push_md_row(&mut md, &rows[0]);
    assert(Seq::new(rows@[0]@.len(), |j: int| rows@[0]@[j]@) =~= tv[0]);
    let ghost head = md@;
    append_str(&mut md, "|");
    let mut k: usize = 0;
    while k < rows[0].len()
        invariant
            rows@.len() > 0,
            k <= rows@[0]@.len(),
            md@ == head + md_separator(k as nat),
        decreases rows@[0]@.len() - k,
    {
        append_str(&mut md, " --- |");
        k = k + 1;
        assert(md@ =~= head + md_separator(k as nat));
    }
    append_str(&mut md, "\n");
    let ghost top = md@;
    let mut i: usize = 1;
    while i < rows.len()
        invariant
            1 <= i <= rows@.len(),
            tv == table_view(rows@),
            md@ == top + md_rows(tv.skip(1).take(i - 1)),
        decreases rows@.len() - i,
    {
        assert(tv.skip(1).take(i as int).drop_last() =~= tv.skip(1).take(i - 1));
        assert(Seq::new(rows@[i as int]@.len(), |j: int| rows@[i as int]@[j]@) =~= tv.skip(1).take(
            i as int,
        ).last());
        push_md_row(&mut md, &rows[i]);
        i = i + 1;
        assert(md@ =~= top + md_rows(tv.skip(1).take(i - 1)));
    }
    assert(tv.skip(1).take(rows@.len() - 1) =~= tv.skip(1));
    string_from_chars(&md)
}

/// What converting to a Markdown table gives: the table, or the parse error, or an error when
/// the table is empty.
pub open spec fn markdown_outcome(content: Seq<char>, ct: ContentKind) -> Result<Seq<char>, Seq<char>> {
    let rows = table_rows(content, table_delimiter(content, ct));
    if rows.len() == 0 {
        Err("无法解析表格数据"@)
    } else {
        Ok(markdown_table(rows))
    }
}

impl TableToMarkdownAction {
    /// Converts TSV/CSV content to a Markdown table whose first row is the header.
    pub fn execute(&self, input: ActionInput) -> (r: Result<ActionOutput, String>)
        ensures
            match markdown_outcome(input.content@, input.content_type@) {
                Ok(md) => (r matches Ok(o) && o.result@ == md && o.result_type@ == "markdown"@),
                Err(e) => (r matches Err(m) && m@ == e),
            },
    {
        let rows = match parse_table(input.content.as_str(), &input.content_type) {
            Ok(rows) => rows,
            Err(e) => {
                return Err(e);
            },
        };
        if rows.len() == 0 {
            return Err("表格数据为空".to_owned());
        }
        let md = render_markdown_table(&rows);
        Ok(ActionOutput { result: md, result_type: "markdown".to_owned() })
    }
}

/// One record: each header paired with the cell below it, or with "" when the row is short.
pub open spec fn record_of(headers: Seq<Seq<char>>, row: Seq<Seq<char>>) -> Seq<(Seq<char>, Seq<char>)> {
    Seq::new(
        headers.len(),
        |i: int|
            (headers[i], if i < row.len() {
                row[i]
            } else {
                Seq::<char>::empty()
            }),
    )
}

/// The records of a table: one per row after the header.
pub open spec fn table_records(rows: Seq<Seq<Seq<char>>>) -> Seq<Seq<(Seq<char>, Seq<char>)>> {
    Seq::new((rows.len() - 1) as nat, |i: int| record_of(rows[0], rows[i + 1]))
}

/// The records of a table of at least two rows.
pub fn records_of(rows: &Vec<Vec<String>>) -> (r: Vec<Vec<(String, String)>>)
    requires
        rows@.len() >= 2,
    ensures
        records_view(r@) == table_records(table_view(rows@)),
{
    let ghost tv = table_view(rows@);
    let headers = &rows[0];
    let mut out: Vec<Vec<(String, String)>> = Vec::new();
    let mut i: usize = 1;
    while i < rows.len()
        invariant
            1 <= i <= rows@.len(),
            rows@.len() >= 2,
            tv == table_view(rows@),
            headers@ == rows@[0]@,
            out@.len() == i - 1,
            forall|k: int| 0 <= k < i - 1 ==> records_view(out@)[k] == record_of(tv[0], tv[k + 1]),
        decreases rows@.len() - i,
    {
        let row = &rows[i];
        let mut rec: Vec<(String, String)> = Vec::new();
        let mut j: usize = 0;
        while j < headers.len()
            invariant
                j <= headers@.len(),
                headers@ == rows@[0]@,
                row@ == rows@[i as int]@,
                tv == table_view(rows@),
                i < rows@.len(),
                rec@.len() == j,
                forall|k: int|
                    0 <= k < j ==> ((#[trigger] rec@[k]).0@, rec@[k].1@) == record_of(tv[0], tv[i as int])[k],
            decreases headers@.len() - j,
        {
            let val = if j < row.len() {
                row[j].clone()
            } else {
                String::new()
            };
            rec.push((headers[j].clone(), val));
            j = j + 1;
        }
        let ghost before = out@;
        out.push(rec);
        assert(records_view(out@)[i - 1] =~= record_of(tv[0], tv[i as int]));
        assert forall|k: int| 0 <= k < i implies records_view(out@)[k] == record_of(tv[0], tv[k + 1]) by {
            if k < i - 1 {
                assert(records_view(out@)[k] == records_view(before)[k]);
            }
        }
        i = i + 1;
    }
    assert(records_view(out@) =~= table_records(tv));
    out
}


impl TableToJsonAction {
    /// Converts TSV/CSV content to a JSON array with one object per data row, keyed by the
    /// header cells; fails when there is no data row.
    pub fn execute(&self, input: ActionInput) -> (r: Result<ActionOutput, String>)
        ensures
            ({
                let rows = table_rows(
                    input.content@,
                    table_delimiter(input.content@, input.content_type@),
                );
                &&& rows.len() == 0 ==> (r matches Err(m) && m@ == "无法解析表格数据"@)
                &&& rows.len() == 1 ==> (r matches Err(m) && m@ == "表格数据至少需要表头和一行数据"@)
                &&& rows.len() >= 2 ==> (r matches Ok(o) && o.result@ == json_records_pretty(
                    table_records(rows),
                ) && o.result_type@ == "json"@)
            }),
    {
        let rows = match parse_table(input.content.as_str(), &input.content_type) {
            Ok(rows) => rows,
            Err(e) => {
                return Err(e);
            },
        };
        if rows.len() < 2 {
            return Err("表格数据至少需要表头和一行数据".to_owned());
        }
        let records = records_of(&rows);
        match json_records(&records) {
            Ok(text) => Ok(ActionOutput { result: text, result_type: "json".to_owned() }),
            Err(e) => {
                let mut msg = "JSON 序列化失败: ".to_owned();
                msg.append(e.as_str());
                Err(msg)
            },
        }
    }
}

/// A table with a header row gives one record per data row, in order: record `k` pairs each
/// header, in order, with the cell of data row `k` (the table's row `k + 1`) in the same
/// column, or with the empty text when that row is shorter.
pub proof fn law_records_follow_rows(rows: Seq<Seq<Seq<char>>>)
    requires
        rows.len() >= 1,
    ensures
        table_records(rows).len() == rows.len() - 1,
        forall|k: int| 0 <= k < rows.len() - 1 ==> #[trigger] table_records(rows)[k].len() == rows[0].len(),
        forall|k: int, j: int|
            0 <= k < rows.len() - 1 && 0 <= j < rows[0].len() ==> {
                &&& #[trigger] table_records(rows)[k][j].0 == rows[0][j]
                &&& j < rows[k + 1].len() ==> table_records(rows)[k][j].1 == rows[k + 1][j]
                &&& j >= rows[k + 1].len() ==> table_records(rows)[k][j].1 == Seq::<char>::empty()
            },
{
}

/// Whether a line holds something besides whitespace.
pub open spec fn non_blank(l: Seq<char>) -> bool {
    trim(l).len() > 0
}

/// The rows of a table are its non-blank lines, in order, each split at the delimiter into
/// trimmed cells; blank lines are skipped and nothing else is.
pub proof fn law_rows_are_non_blank_lines(content: Seq<char>, d: char)
    ensures
        table_rows(content, d) == lines(content).filter(|l: Seq<char>| non_blank(l)).map_values(
            |l: Seq<char>| row_cells(l, d),
        ),
{
    lemma_rows_from_lines(lines(content), d);
}

proof fn lemma_rows_from_lines(ls: Seq<Seq<char>>, d: char)
    ensures
        rows_from_lines(ls, d) == ls.filter(|l: Seq<char>| non_blank(l)).map_values(|l: Seq<char>| row_cells(l, d)),
    decreases ls.len(),
{
    reveal(Seq::filter);
    let p = |l: Seq<char>| non_blank(l);
    let f = |l: Seq<char>| row_cells(l, d);
    if ls.len() > 0 {
        lemma_rows_from_lines(ls.drop_last(), d);
        let prev = ls.drop_last().filter(p);
        assert(ls.filter(p) == if p(ls.last()) { prev.push(ls.last()) } else { prev });
        if p(ls.last()) {
            assert(prev.push(ls.last()).map_values(f) =~= prev.map_values(f) + seq![row_cells(ls.last(), d)]);
        } else {
            assert(prev.map_values(f) + Seq::<Seq<Seq<char>>>::empty() =~= prev.map_values(f));
        }
    } else {
        assert(ls.filter(p) =~= Seq::<Seq<char>>::empty());
        assert(ls.filter(p).map_values(f) =~= Seq::<Seq<Seq<char>>>::empty());
    }
}

/// The Markdown rows of consecutive tables are the rows of the first followed by those of
/// the second; a single row is its cells between "| " and " |", separated by " | ", on a
/// line of its own. So the rows come out one line each, in order, none dropped or repeated.
pub proof fn law_markdown_rows(r1: Seq<Seq<Seq<char>>>, r2: Seq<Seq<Seq<char>>>, row: Seq<Seq<char>>)
    ensures
        md_rows(r1 + r2) == md_rows(r1) + md_rows(r2),
        md_rows(seq![row]) == "| "@ + join(row, " | "@) + " |\n"@,
    decreases r2.len(),
{
    if r2.len() == 0 {
        assert(r1 + r2 =~= r1);
        assert(md_rows(r1) + Seq::<char>::empty() =~= md_rows(r1));
    } else {
        law_markdown_rows(r1, r2.drop_last(), row);
        assert((r1 + r2).drop_last() =~= r1 + r2.drop_last());
        assert((r1 + r2).last() == r2.last());
        assert(md_rows(r1) + md_rows(r2.drop_last()) + md_row(r2.last()) =~= md_rows(r1) + (md_rows(
            r2.drop_last(),
        ) + md_row(r2.last())));
    }
    let one = seq![row];
    assert(one.drop_last() =~= Seq::<Seq<Seq<char>>>::empty());
    assert(one.last() == row);
    assert(md_rows(Seq::<Seq<Seq<char>>>::empty()) == Seq::<char>::empty());
    assert(md_rows(one) == md_rows(one.drop_last()) + md_row(one.last()));
    assert(Seq::<char>::empty() + md_row(row) =~= md_row(row));
}

/// A Markdown table is its header row, a separator line with one " --- |" per header cell
/// after a leading '|', then the data rows in order.
pub proof fn law_markdown_table(rows: Seq<Seq<Seq<char>>>)
    requires
        rows.len() >= 1,
    ensures
        markdown_table(rows) == md_rows(seq![rows[0]]) + md_separator(rows[0].len()) + "\n"@ + md_rows(rows.skip(1)),
        md_separator(rows[0].len()).len() == 1 + 6 * rows[0].len(),
        rows.skip(1).len() == rows.len() - 1,
{
    law_markdown_rows(Seq::empty(), Seq::empty(), rows[0]);
    lemma_separator_len(rows[0].len());
}

proof fn lemma_separator_len(n: nat)
    ensures
        md_separator(n).len() == 1 + 6 * n,
    decreases n,
{
    reveal_strlit("|");
    reveal_strlit(" --- |");
    if n > 0 {
        lemma_separator_len((n - 1) as nat);
    }
}

} // verus!
