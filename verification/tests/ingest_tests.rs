use open_eyes::errors::OpenEyesError;
use open_eyes::ingest::{
    create_table_statement, csv_table_load, error_status_statement, insert_row_statement,
    json_list_text, json_resource_load, json_table_load, loaded_status_statement, make_table_name,
    sanitize_column_name, table_columns_query, JsonCell, JsonPayload,
};

fn strings(v: &[&str]) -> Vec<String> {
    v.iter().map(|s| s.to_string()).collect()
}

#[test]
fn sanitizes_column_names() {
    assert_eq!(sanitize_column_name("Name (EUR)"), "Name__EUR_");
    assert_eq!(sanitize_column_name("2020"), "_2020");
    assert_eq!(sanitize_column_name(""), "col");
    assert_eq!(sanitize_column_name("Straße"), "Straße");
    assert_eq!(sanitize_column_name("a-b c"), "a_b_c");
    assert_eq!(sanitize_column_name("_x1"), "_x1");
    for s in ["Name (EUR)", "2020", "a-b", "Straße", "1a"] {
        let once = sanitize_column_name(s);
        assert_eq!(sanitize_column_name(&once), once);
    }
}

#[test]
fn makes_table_names() {
    assert_eq!(make_table_name("abcdefghij", "r1"), "data_abcdefgh_r1");
    assert_eq!(make_table_name("ds00001", "r000001xyz"), "data_ds00001_r000001x");
    assert_eq!(make_table_name("", ""), "data__");
    assert_eq!(make_table_name("äbcdefgh", "x"), "data_äbcdefg_x");
}

#[test]
fn builds_table_statements() {
    let headers = strings(&["year", "city"]);
    assert_eq!(
        create_table_statement("data_a_b", &headers),
        "DROP TABLE IF EXISTS data_a_b; CREATE TABLE data_a_b (\"year\" TEXT, \"city\" TEXT);"
    );
    assert_eq!(insert_row_statement("data_a_b", 3), "INSERT INTO data_a_b VALUES (?, ?, ?)");
    assert_eq!(insert_row_statement("t", 0), "INSERT INTO t VALUES ()");
    assert_eq!(table_columns_query("t1"), "PRAGMA table_info(t1)");
}

#[test]
fn loads_csv_resources() {
    let bytes = b"year,Population (total),city\n2020,3700000,Berlin\n2021,3750000\n2022,1,2,extra\n";
    let load = csv_table_load(bytes, "data_x_y").unwrap();
    assert_eq!(
        load.create_sql,
        "DROP TABLE IF EXISTS data_x_y; CREATE TABLE data_x_y (\"year\" TEXT, \"Population__total_\" TEXT, \"city\" TEXT);"
    );
    assert_eq!(load.insert_sql, "INSERT INTO data_x_y VALUES (?, ?, ?)");
    assert_eq!(load.rows.len(), 3);
    assert_eq!(load.rows[0], strings(&["2020", "3700000", "Berlin"]));
    assert_eq!(load.rows[1], strings(&["2021", "3750000", ""]));
    assert_eq!(load.rows[2], strings(&["2022", "1", "2"]));
}

#[test]
fn refuses_csv_without_headers() {
    match csv_table_load(b"", "t") {
        Err(OpenEyesError::Ingestion(m)) => assert_eq!(m, "CSV has no headers"),
        other => panic!("unexpected {other:?}"),
    }
}

#[test]
fn loads_json_resources() {
    let rows = vec![
        Some(vec![
            ("a b".to_string(), JsonCell::Text("x".to_string())),
            ("n".to_string(), JsonCell::Other("1".to_string())),
        ]),
        None,
        Some(vec![
            ("a-b".to_string(), JsonCell::Null),
            ("z".to_string(), JsonCell::Other("true".to_string())),
        ]),
    ];
    let load = json_table_load(&Ok(JsonPayload::Array(rows)), "data_j_k").unwrap();
    assert_eq!(
        load.create_sql,
        "DROP TABLE IF EXISTS data_j_k; CREATE TABLE data_j_k (\"a_b\" TEXT, \"n\" TEXT, \"z\" TEXT);"
    );
    assert_eq!(load.insert_sql, "INSERT INTO data_j_k VALUES (?, ?, ?)");
    assert_eq!(load.rows, vec![strings(&["x", "1", ""]), strings(&["", "", "true"])]);

    let single = vec![("k".to_string(), JsonCell::Text("v".to_string()))];
    let load = json_table_load(&Ok(JsonPayload::Object(single)), "t").unwrap();
    assert_eq!(load.rows, vec![strings(&["v"])]);
}

#[test]
fn refuses_unusable_json() {
    match json_table_load(&Err("expected value".to_string()), "t") {
        Err(OpenEyesError::Ingestion(m)) => assert_eq!(m, "JSON parse error: expected value"),
        other => panic!("unexpected {other:?}"),
    }
    match json_table_load(&Ok(JsonPayload::Scalar), "t") {
        Err(OpenEyesError::Ingestion(m)) => assert_eq!(m, "JSON must be an array or object"),
        other => panic!("unexpected {other:?}"),
    }
    match json_table_load(&Ok(JsonPayload::Array(vec![None])), "t") {
        Err(OpenEyesError::Ingestion(m)) => assert_eq!(m, "JSON has no rows"),
        other => panic!("unexpected {other:?}"),
    }
}

#[test]
fn writes_resource_status_statements() {
    assert_eq!(json_list_text(&strings(&["year", "it's"])), "[\"year\",\"it's\"]");
    assert_eq!(
        loaded_status_statement("r-1", "data_a_b", 3, &strings(&["year", "it's"])),
        "UPDATE oe_resources SET download_status = 'loaded', table_name = 'data_a_b', row_count = 3, column_names = '[\"year\",\"it''s\"]' WHERE id = 'r-1'"
    );
    assert_eq!(
        error_status_statement("r'2", "Connection timeout"),
        "UPDATE oe_resources SET download_status = 'error', error_message = 'Connection timeout' WHERE id = 'r''2'"
    );
}

#[test]
fn json_list_text_escapes_as_serde_json_writes() {
    let items = strings(&["a\"b", "c\\d", "e\nf", "\u{1}\u{8}\u{c}\r\t", "\u{7f}é"]);
    assert_eq!(
        json_list_text(&items),
        "[\"a\\\"b\",\"c\\\\d\",\"e\\nf\",\"\\u0001\\b\\f\\r\\t\",\"\u{7f}é\"]"
    );
    assert_eq!(json_list_text(&Vec::new()), "[]");
}

#[test]
fn json_resource_load_reads_bytes() {
    let bytes = br#"[{"a": 1, "b": "x"}, {"b": null, "c": [1, 2]}, 3]"#;
    let load = json_resource_load(bytes, "data_t").unwrap();
    assert_eq!(load.create_sql, "DROP TABLE IF EXISTS data_t; CREATE TABLE data_t (\"a\" TEXT, \"b\" TEXT, \"c\" TEXT);");
    assert_eq!(load.rows, vec![strings(&["1", "x", ""]), strings(&["", "", "[1,2]"])]);

    let object = json_resource_load(br#"{"Name": "Berlin"}"#, "data_o").unwrap();
    assert_eq!(object.rows, vec![strings(&["Berlin"])]);

    match json_resource_load(b"not json", "data_t") {
        Err(OpenEyesError::Ingestion(m)) => assert!(m.starts_with("JSON parse error: ")),
        other => panic!("unexpected {other:?}"),
    }
    match json_resource_load(b"3", "data_t") {
        Err(OpenEyesError::Ingestion(m)) => assert_eq!(m, "JSON must be an array or object"),
        other => panic!("unexpected {other:?}"),
    }
    match json_resource_load(b"[1, 2]", "data_t") {
        Err(OpenEyesError::Ingestion(m)) => assert_eq!(m, "JSON has no rows"),
        other => panic!("unexpected {other:?}"),
    }
}
