use open_eyes::errors::{DashboardError, OpenEyesError};
use open_eyes::models::ColumnSchema;
use open_eyes::store::{
    describe_statement, DbPool, DescribeReply, DuckDbPool, EngineReply, StoredTableRow,
    DUCKDB_SCHEMA, SQLITE_SCHEMA,
};

fn stored(name: &str, cols: Option<&str>, rows: Option<i64>) -> StoredTableRow {
    StoredTableRow {
        table_name: name.to_string(),
        dataset_title: "Test DS".to_string(),
        description: None,
        row_count: rows,
        column_names: cols.map(|c| c.to_string()),
    }
}

fn col(n: &str) -> Option<ColumnSchema> {
    Some(ColumnSchema { name: n.to_string(), data_type: "TEXT".to_string() })
}

#[test]
fn maps_engine_outcomes() {
    let pool = DuckDbPool::new(());
    assert_eq!(pool.execute(EngineReply::Done(3)).unwrap(), 3);
    assert_eq!(pool.execute_batch(EngineReply::Failed("syntax".to_string())).unwrap_err(), OpenEyesError::DuckDb("syntax".to_string()));
    assert_eq!(pool.init_schema(EngineReply::LockFailed("poisoned".to_string())).unwrap_err(), OpenEyesError::Other("poisoned".to_string()));
    let sq = DbPool::new(());
    assert_eq!(sq.execute(EngineReply::Failed("busy".to_string())).unwrap_err(), OpenEyesError::Sqlite("busy".to_string()));
    assert!(sq.init_schema(EngineReply::Done(())).is_ok());
    assert!(DUCKDB_SCHEMA.contains("CREATE TABLE IF NOT EXISTS oe_chat_messages"));
    assert!(SQLITE_SCHEMA.contains("id INTEGER PRIMARY KEY AUTOINCREMENT"));
}

#[test]
fn reads_table_infos() {
    let duck = DuckDbPool::new(());
    let infos = duck
        .get_table_infos(EngineReply::Done(vec![Ok(stored("data_a", Some("[col_a, col_b]"), None))]))
        .unwrap();
    assert_eq!(infos[0].row_count, 0);
    assert_eq!(infos[0].column_names, vec!["col_a".to_string(), "col_b".to_string()]);

    let sq = DbPool::new(());
    let infos = sq
        .get_table_infos(EngineReply::Done(vec![
            Ok(stored("data_ds1_r1", Some("[\"col_a\", \"col_b\"]"), Some(100))),
            Ok(stored("data_x", None, Some(1))),
        ]))
        .unwrap();
    assert_eq!(infos.len(), 2);
    assert_eq!(infos[0].table_name, "data_ds1_r1");
    assert_eq!(infos[0].dataset_title, "Test DS");
    assert_eq!(infos[0].row_count, 100);
    assert_eq!(infos[0].column_names, vec!["col_a".to_string(), "col_b".to_string()]);
    assert!(infos[1].column_names.is_empty());

    let err = sq
        .get_table_infos(EngineReply::Done(vec![Ok(stored("a", None, None)), Err("bad row".to_string()), Err("later".to_string())]))
        .unwrap_err();
    assert_eq!(err, OpenEyesError::Sqlite("bad row".to_string()));
    assert!(sq.get_table_infos(EngineReply::Done(Vec::new())).unwrap().is_empty());
}

#[test]
fn reads_column_schemas() {
    let sq = DbPool::<()>::new(());
    assert_eq!(DbPool::<()>::column_schema_statement("test_table"), Some("PRAGMA table_info(test_table)".to_string()));
    assert_eq!(DbPool::<()>::column_schema_statement("x; DROP TABLE y"), None);
    let names = vec!["test_table".to_string(), "bad name".to_string(), "empty_t".to_string(), "missing".to_string()];
    let replies = vec![
        DescribeReply::Rows(vec![col("name"), None, col("age"), col("score")]),
        DescribeReply::Rows(vec![col("never read")]),
        DescribeReply::Rows(Vec::new()),
        DescribeReply::PrepareFailed,
    ];
    let schemas = sq.get_column_schemas(&names, EngineReply::Done(replies)).unwrap();
    assert_eq!(schemas.len(), 1);
    assert_eq!(schemas[0].0, "test_table");
    let cols: Vec<&str> = schemas[0].1.iter().map(|c| c.name.as_str()).collect();
    assert_eq!(cols, vec!["name", "age", "score"]);

    let duck = DuckDbPool::new(());
    assert_eq!(describe_statement("t"), "DESCRIBE t");
    let names = vec!["a".to_string(), "b".to_string(), "c".to_string()];
    let replies = vec![
        DescribeReply::Rows(Vec::new()),
        DescribeReply::QueryFailed("io".to_string()),
        DescribeReply::Rows(vec![col("x")]),
    ];
    assert_eq!(duck.get_column_schemas(&names, EngineReply::Done(replies)).unwrap_err(), OpenEyesError::DuckDb("io".to_string()));
    let replies = vec![DescribeReply::Rows(Vec::new()), DescribeReply::PrepareFailed, DescribeReply::Rows(vec![col("x")])];
    let schemas = duck.get_column_schemas(&names, EngineReply::Done(replies)).unwrap();
    assert_eq!(schemas.len(), 2);
    assert_eq!(schemas[0].0, "a");
    assert!(schemas[0].1.is_empty());
    assert_eq!(schemas[1].0, "c");
}

#[test]
fn reports_error_messages() {
    assert_eq!(OpenEyesError::Config("missing".to_string()).message(), "Config error: missing");
    assert_eq!(OpenEyesError::Other("x".to_string()).message(), "x");
    assert_eq!(OpenEyesError::DuckDb("x".to_string()).message(), "DuckDB error: x");
    assert_eq!(DashboardError::Db("x".to_string()).message(), "Database error: x");
    assert_eq!(DashboardError::Other("y".to_string()).message(), "y");
}
