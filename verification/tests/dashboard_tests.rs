use open_eyes::dashboard::{
    assistant_entry, chat_history, chat_history_sql, count_of, dataset_detail,
    dataset_detail_sql, dataset_resources_sql, field_i64, field_text, field_u64,
    ingestion_status, overview_stats, popular_categories, recent_datasets, saved_charts,
    search_queries, search_result, table_preview_allowed, table_preview_sql, JsonRow, JsonScalar,
    APOLOGY, text_values, value_text_of,
};

fn row(fields: Vec<(&str, JsonScalar)>) -> JsonRow {
    JsonRow { fields: fields.into_iter().map(|(k, v)| (k.to_string(), v)).collect() }
}

fn text(s: &str) -> JsonScalar {
    JsonScalar::Text(s.to_string())
}

#[test]
fn reads_row_fields() {
    let r = row(vec![
        ("cnt", JsonScalar::PosInt(7)),
        ("neg", JsonScalar::NegInt(-3)),
        ("big", JsonScalar::PosInt(u64::MAX)),
        ("f", JsonScalar::Float("1.5".to_string())),
        ("s", text("x")),
    ]);
    assert_eq!(field_u64(&r, "cnt"), 7);
    assert_eq!(field_u64(&r, "neg"), 0);
    assert_eq!(field_i64(&r, "neg"), -3);
    assert_eq!(field_i64(&r, "big"), 0);
    assert_eq!(field_i64(&r, "f"), 0);
    assert_eq!(field_text(&r, "s"), "x");
    assert_eq!(field_text(&r, "cnt"), "");
    assert_eq!(field_text(&r, "missing"), "");
    assert_eq!(count_of(&vec![r]), 7);
    assert_eq!(count_of(&Vec::new()), 0);
}

#[test]
fn summarizes_counts() {
    let c = |n: u64| vec![row(vec![("cnt", JsonScalar::PosInt(n))])];
    let s = overview_stats(&c(1), &c(2), &c(3), &c(4));
    assert_eq!((s.total_datasets, s.total_tables, s.total_rows, s.total_resources), (1, 2, 3, 4));
    let i = ingestion_status(&c(5), &c(6), &Vec::new(), &c(8));
    assert_eq!((i.total_datasets, i.loaded_resources, i.pending_resources, i.error_resources), (5, 6, 0, 8));
    let cats = popular_categories(&vec![row(vec![("name", text("health")), ("count", JsonScalar::PosInt(3))])]);
    assert_eq!(cats[0].name, "health");
    assert_eq!(cats[0].count, 3);
    let recent = recent_datasets(&vec![row(vec![("id", text("d1")), ("title", text("T"))])]);
    assert_eq!(recent[0].id, "d1");
    assert_eq!(recent[0].organization, "");
    let charts = saved_charts(&vec![row(vec![("id", JsonScalar::PosInt(9)), ("chart_spec", text("{}"))])]);
    assert_eq!(charts[0].id, 9);
    assert_eq!(charts[0].chart_spec, "{}");
}

#[test]
fn builds_search_queries() {
    let (count, data) = search_queries("", 0, 20);
    assert_eq!(count, "SELECT COUNT(*) AS cnt FROM oe_datasets");
    assert!(data.ends_with("FROM oe_datasets d ORDER BY d.ingested_at DESC LIMIT 20 OFFSET 0"));
    let (count, data) = search_queries("Berlin's", 40, 20);
    assert_eq!(
        count,
        "SELECT COUNT(*) AS cnt FROM oe_datasets d WHERE d.title ILIKE '%Berlin''s%' OR d.description ILIKE '%Berlin''s%' OR d.organization ILIKE '%Berlin''s%'"
    );
    assert!(data.ends_with("FROM oe_datasets d WHERE d.title ILIKE '%Berlin''s%' OR d.description ILIKE '%Berlin''s%' OR d.organization ILIKE '%Berlin''s%' ORDER BY d.ingested_at DESC LIMIT 20 OFFSET 40"));
}

#[test]
fn reads_search_results_and_details() {
    let rows = vec![row(vec![
        ("id", text("d1")),
        ("title", text("Berlin")),
        ("tags_str", text("[berlin, demographics]")),
        ("resource_count", JsonScalar::PosInt(2)),
    ])];
    let r = search_result(&vec![row(vec![("cnt", JsonScalar::PosInt(11))])], &rows);
    assert_eq!(r.total, 11);
    assert_eq!(r.datasets[0].tags, vec!["berlin".to_string(), "demographics".to_string()]);
    assert_eq!(r.datasets[0].resource_count, 2);
    assert_eq!(r.datasets[0].license, "");

    assert_eq!(dataset_detail(&Vec::new(), &Vec::new()).unwrap_err(), "Dataset not found");
    let d = dataset_detail(
        &vec![row(vec![("id", text("d1")), ("categories_str", text("[a]"))])],
        &vec![row(vec![("id", text("r1")), ("row_count", JsonScalar::PosInt(5)), ("download_status", text("loaded"))])],
    )
    .unwrap();
    assert_eq!(d.categories, vec!["a".to_string()]);
    assert!(d.tags.is_empty());
    assert_eq!(d.resources[0].row_count, 5);
    assert_eq!(d.resources[0].download_status, "loaded");
    assert!(dataset_detail_sql("d'1").ends_with("FROM oe_datasets WHERE id = 'd''1'"));
    assert!(dataset_resources_sql("d1").ends_with("FROM oe_resources WHERE dataset_id = 'd1'"));
}

#[test]
fn guards_table_previews() {
    assert!(table_preview_allowed("data_ds1_r1"));
    assert!(!table_preview_allowed("oe_datasets"));
    assert!(!table_preview_allowed("data_x; DROP TABLE y"));
    assert!(!table_preview_allowed("data_x'"));
    assert_eq!(table_preview_sql("data_a_b").unwrap(), "SELECT * FROM data_a_b LIMIT 20");
    assert_eq!(table_preview_sql("users").unwrap_err(), "Invalid table name");
}

#[test]
fn reads_chat_history() {
    assert_eq!(
        chat_history_sql("s'1"),
        "SELECT id, role, content, COALESCE(sql_query, '') AS sql_query, COALESCE(chart_spec, '') AS chart_spec FROM oe_chat_messages WHERE session_id = 's''1' ORDER BY created_at ASC"
    );
    let h = chat_history(&vec![
        row(vec![("id", JsonScalar::PosInt(1)), ("role", text("user")), ("content", text("First question"))]),
        row(vec![("id", JsonScalar::PosInt(2)), ("role", text("assistant")), ("content", text("Answer"))]),
    ]);
    assert_eq!(h.len(), 2);
    assert_eq!(h[0].role, "user");
    assert_eq!(h[1].content, "Answer");
    assert_eq!(h[1].sql_query, "");
}

#[test]
fn shows_answers_and_apologies() {
    let e = assistant_entry(Ok(("S".to_string(), "Q".to_string(), "{}".to_string())));
    assert_eq!((e.role.as_str(), e.content.as_str(), e.sql.as_str(), e.chart_spec.as_str()), ("assistant", "S", "Q", "{}"));
    let e = assistant_entry(Err("boom".to_string()));
    assert_eq!(e.content, format!("{APOLOGY}boom"));
    assert!(e.content.ends_with("Technische Details: boom"));
    assert!(e.sql.is_empty());
}

#[test]
fn text_values_keep_string_cells_in_order() {
    let rows = vec![
        row(vec![("name", text("id")), ("type", text("TEXT"))]),
        row(vec![("name", JsonScalar::PosInt(3))]),
        row(vec![("type", text("TEXT"))]),
        row(vec![("name", text("title"))]),
    ];
    assert_eq!(text_values(&rows, "name"), vec!["id".to_string(), "title".to_string()]);
    assert!(text_values(&Vec::new(), "name").is_empty());
}

#[test]
fn value_text_reads_values_as_text() {
    assert_eq!(value_text_of(&text("a")), "a");
    assert_eq!(value_text_of(&JsonScalar::Null), "null");
    assert_eq!(value_text_of(&JsonScalar::Bool(false)), "false");
    assert_eq!(value_text_of(&JsonScalar::PosInt(12)), "12");
    assert_eq!(value_text_of(&JsonScalar::NegInt(-12)), "-12");
    assert_eq!(value_text_of(&JsonScalar::Float("0.5".to_string())), "0.5");
    assert_eq!(value_text_of(&JsonScalar::Compound("[1,2]".to_string())), "[1,2]");
}
