use clipbrain::storage::action_history::{action_usage_stats, get_action_stats, list_action_history};
use clipbrain::storage::clipboard_history::{
    clear_unpinned, count_history, list_history, retention_modifier, retention_query,
    search_history_advanced, CLEAR_UNPINNED_BEFORE_SQL, CLEAR_UNPINNED_SQL,
    toggled_pin, SearchFilters, ADVANCED_HEAD, ADVANCED_MIDDLE, ADVANCED_OFFSET, ADVANCED_TAIL,
};
use clipbrain::storage::clipboard_tags::list_all_tags;
use clipbrain::storage::custom_prompts::{get_prompt, list_prompts};
use clipbrain::storage::database::{QueryOutcome, SqlValue};
use clipbrain::storage::migrations::{deduplicate_images, prefer_image_row, ImageRow};

fn text(s: &str) -> SqlValue {
    SqlValue::Text(s.to_string())
}

fn history_row(id: i64, pinned: i64) -> Vec<SqlValue> {
    vec![
        SqlValue::Int(id),
        text("hello"),
        SqlValue::Null,
        text("PlainText"),
        SqlValue::Null,
        SqlValue::Int(5),
        text("2024-01-01 00:00:00"),
        SqlValue::Int(pinned),
        SqlValue::Int(0),
    ]
}

fn filters() -> SearchFilters {
    SearchFilters { keyword: None, content_type: None, tag: None, pinned_only: None, date_from: None, date_to: None }
}

#[test]
fn history_rows_decode_in_order() {
    let items = list_history(QueryOutcome::Rows(vec![Ok(history_row(1, 0)), Ok(history_row(2, 1))])).unwrap();
    assert_eq!(items.len(), 2);
    assert_eq!(items[0].id, 1);
    assert_eq!(items[0].content, Some("hello".to_string()));
    assert_eq!(items[0].image_path, None);
    assert!(items[1].is_pinned);
    assert_eq!(items[1].char_count, Some(5));
}

#[test]
fn history_failures_carry_their_stage() {
    assert_eq!(list_history(QueryOutcome::PrepareFailed("p".to_string())).err().unwrap(), "查询准备失败: p");
    assert_eq!(list_history(QueryOutcome::ExecuteFailed("q".to_string())).err().unwrap(), "查询执行失败: q");
    assert_eq!(
        list_history(QueryOutcome::Rows(vec![Ok(history_row(1, 0)), Err("bad".to_string())])).err().unwrap(),
        "行解析失败: bad"
    );
    let mut broken = history_row(1, 0);
    broken[3] = SqlValue::Int(1);
    assert_eq!(
        list_history(QueryOutcome::Rows(vec![Ok(broken)])).err().unwrap(),
        "行解析失败: Invalid column type"
    );
}

#[test]
fn clearing_counting_and_toggling() {
    assert_eq!(clear_unpinned(Ok(4)), Ok(4));
    assert_eq!(clear_unpinned(Err("x".to_string())), Err("清空失败: x".to_string()));
    assert_eq!(count_history(Ok(9)), Ok(9));
    assert_eq!(count_history(Err("x".to_string())), Err("计数查询失败: x".to_string()));
    assert_eq!(toggled_pin(0), (1, true));
    assert_eq!(toggled_pin(1), (0, false));
    assert_eq!(toggled_pin(7), (0, false));
    assert_eq!(retention_modifier(30), "-30 days");
}

#[test]
fn advanced_search_without_filters() {
    let q = search_history_advanced(&filters(), 50, 0);
    let expected = format!("{}{}{}{}1{}2", ADVANCED_HEAD, "", ADVANCED_MIDDLE, ADVANCED_TAIL, ADVANCED_OFFSET);
    assert_eq!(q.sql, expected);
    assert_eq!(q.params.len(), 2);
    assert!(matches!(q.params[0], SqlValue::Int(50)));
}

#[test]
fn advanced_search_numbers_parameters_in_order() {
    let f = SearchFilters {
        keyword: Some("abc".to_string()),
        content_type: Some("Code(\"rust\")".to_string()),
        tag: Some("work".to_string()),
        pinned_only: Some(true),
        date_from: Some(String::new()),
        date_to: Some("2024-12-31".to_string()),
    };
    let q = search_history_advanced(&f, 10, 20);
    assert!(q.sql.contains("INNER JOIN clipboard_tags ct ON ch.id = ct.clipboard_id"));
    assert!(q.sql.contains(
        "WHERE ch.content LIKE ?1 AND ch.content_type LIKE ?2 AND ct.tag_name = ?3 AND ch.is_pinned = 1 AND ch.created_at <= ?4"
    ));
    assert!(q.sql.ends_with("LIMIT ?5 OFFSET ?6"));
    assert_eq!(q.params.len(), 6);
    assert!(matches!(&q.params[0], SqlValue::Text(t) if t == "%abc%"));
    assert!(matches!(&q.params[1], SqlValue::Text(t) if t == "Code%"));
    assert!(matches!(q.params[5], SqlValue::Int(20)));
}

#[test]
fn action_statistics() {
    let top = QueryOutcome::Rows(vec![
        Ok(vec![text("summarize"), SqlValue::Int(3), SqlValue::Int(300)]),
        Err("unreadable".to_string()),
        Ok(vec![SqlValue::Null, SqlValue::Int(1), SqlValue::Int(1)]),
    ]);
    let daily = QueryOutcome::Rows(vec![Ok(vec![text("2024-01-01"), SqlValue::Int(3)])]);
    let s = get_action_stats(Ok((3, 300)), top, daily).unwrap();
    assert_eq!(s.total_count, 3);
    assert_eq!(s.top_actions.len(), 1);
    assert_eq!(s.top_actions[0].display_name, "summarize");
    assert_eq!(s.daily_trend[0].count, 3);
    assert_eq!(
        get_action_stats(Err("t".to_string()), QueryOutcome::Rows(vec![]), QueryOutcome::Rows(vec![])).err().unwrap(),
        "Query failed: t"
    );
    assert_eq!(
        get_action_stats(Ok((0, 0)), QueryOutcome::PrepareFailed("p".to_string()), QueryOutcome::Rows(vec![])).err().unwrap(),
        "Prepare failed: p"
    );
    let usage = action_usage_stats(QueryOutcome::Rows(vec![Ok(vec![text("a"), SqlValue::Int(2)])])).unwrap();
    assert_eq!(usage, vec![("a".to_string(), 2)]);
    assert!(list_action_history(QueryOutcome::Rows(vec![])).unwrap().is_empty());
}

#[test]
fn tags_and_prompts() {
    let tags = list_all_tags(QueryOutcome::Rows(vec![Ok(vec![text("work")]), Ok(vec![text("home")])])).unwrap();
    assert_eq!(tags, vec!["work".to_string(), "home".to_string()]);
    let row = vec![
        text("p1"), text("Name"), SqlValue::Null, text("Do {{content}}"), text("PlainText"),
        SqlValue::Int(2), text("c"), text("u"),
    ];
    let prompts = list_prompts(QueryOutcome::Rows(vec![Ok(row.clone())])).unwrap();
    assert_eq!(prompts[0].sort_order, 2);
    assert_eq!(prompts[0].content_types, Some("PlainText".to_string()));
    assert!(get_prompt(Ok(None)).unwrap().is_none());
    assert_eq!(get_prompt(Ok(Some(row))).unwrap().unwrap().id, "p1");
    assert_eq!(get_prompt(Err("x".to_string())).err().unwrap(), "查询 Prompt 失败: x");
    let mut big = vec![
        text("p1"), text("Name"), SqlValue::Null, text("x"), SqlValue::Null,
        SqlValue::Int(1 << 40), text("c"), text("u"),
    ];
    assert!(list_prompts(QueryOutcome::Rows(vec![Ok(big.clone())])).is_err());
    big[5] = SqlValue::Other;
    assert!(list_prompts(QueryOutcome::Rows(vec![Ok(big)])).is_err());
}

fn image(id: i64, created: &str, pinned: bool) -> ImageRow {
    ImageRow { id, image_path: format!("/img/{}.png", id), created_at: created.to_string(), is_pinned: pinned }
}

#[test]
fn image_preference() {
    assert!(prefer_image_row(&image(1, "2024-01-01", true), &image(2, "2025-01-01", false)));
    assert!(prefer_image_row(&image(1, "2025-01-01", false), &image(2, "2024-01-01", false)));
    assert!(!prefer_image_row(&image(1, "2024-01-01", false), &image(2, "2024-01-01", false)));
}

#[test]
fn duplicate_images_keep_one_record_each() {
    let rows = vec![
        (image(1, "2024-01-01", false), Some("h1".to_string())),
        (image(2, "2024-02-01", false), Some("h1".to_string())),
        (image(3, "2024-01-01", false), None),
        (image(4, "2023-01-01", true), Some("h1".to_string())),
        (image(5, "2024-01-01", false), Some("h2".to_string())),
    ];
    let (winners, losers) = deduplicate_images(&rows);
    assert_eq!(winners.len(), 2);
    assert_eq!(winners[0].0, "h1");
    assert_eq!(winners[0].1.id, 4);
    assert_eq!(winners[1].1.id, 5);
    assert_eq!(losers, vec![1, 2]);
}

#[test]
fn retention_keeps_the_given_days() {
    let all = retention_query(0);
    assert_eq!(all.sql, CLEAR_UNPINNED_SQL);
    assert!(all.params.is_empty());
    let week = retention_query(7);
    assert_eq!(week.sql, CLEAR_UNPINNED_BEFORE_SQL);
    assert!(matches!(week.params.as_slice(), [SqlValue::Text(m)] if m == "-7 days"));
}
