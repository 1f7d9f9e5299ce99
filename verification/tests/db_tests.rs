use std::path::Path;
use std::sync::Mutex;

use rusqlite::types::ValueRef;
use rusqlite::Connection;

use open_eyes::dashboard::{field_i64, field_text, JsonRow, JsonScalar};
use open_eyes::errors::OpenEyesError;
use open_eyes::models::{ColumnSchema, TableInfo};
use open_eyes::store::{
    DbPool, DescribeReply, EngineReply, StoredTableRow, SQLITE_SCHEMA, SQLITE_TABLE_INFOS_SQL,
};

/// A SQLite file driven through the library's pool: the test runs the
/// statements and hands the engine's replies to the pool.
struct TestDb {
    pool: DbPool<Mutex<Connection>>,
}

fn reply<T>(r: rusqlite::Result<T>) -> EngineReply<T> {
    match r {
        Ok(v) => EngineReply::Done(v),
        Err(e) => EngineReply::Failed(e.to_string()),
    }
}

fn scalar(v: ValueRef<'_>) -> JsonScalar {
    match v {
        ValueRef::Null => JsonScalar::Null,
        ValueRef::Integer(n) if n >= 0 => JsonScalar::PosInt(n as u64),
        ValueRef::Integer(n) => JsonScalar::NegInt(n),
        ValueRef::Real(f) => JsonScalar::Float(f.to_string()),
        ValueRef::Text(t) => JsonScalar::Text(String::from_utf8_lossy(t).into_owned()),
        ValueRef::Blob(_) => JsonScalar::Null,
    }
}

impl TestDb {
    fn open(path: &Path) -> TestDb {
        let conn = Connection::open(path).unwrap();
        conn.execute_batch("PRAGMA journal_mode=WAL; PRAGMA foreign_keys=ON;").unwrap();
        TestDb { pool: DbPool::new(Mutex::new(conn)) }
    }

    fn init_schema(&self) -> Result<(), OpenEyesError> {
        let conn = self.pool.connection().lock().unwrap();
        self.pool.init_schema(reply(conn.execute_batch(SQLITE_SCHEMA)))
    }

    fn execute(&self, sql: &str) -> Result<usize, OpenEyesError> {
        let conn = self.pool.connection().lock().unwrap();
        self.pool.execute(reply(conn.execute(sql, [])))
    }

    fn execute_batch(&self, sql: &str) -> Result<(), OpenEyesError> {
        let conn = self.pool.connection().lock().unwrap();
        self.pool.execute_batch(reply(conn.execute_batch(sql)))
    }

    fn query(&self, sql: &str) -> Vec<JsonRow> {
        let conn = self.pool.connection().lock().unwrap();
        let mut stmt = conn.prepare(sql).unwrap();
        let names: Vec<String> = stmt.column_names().map(|s| s.to_string()).collect();
        let rows = stmt
            .query_map([], |row| {
                let mut fields = Vec::new();
                for (i, n) in names.iter().enumerate() {
                    fields.push((n.clone(), scalar(row.get_ref(i)?)));
                }
                Ok(JsonRow { fields })
            })
            .unwrap();
        rows.map(|r| r.unwrap()).collect()
    }

    fn get_table_infos(&self) -> Result<Vec<TableInfo>, OpenEyesError> {
        let conn = self.pool.connection().lock().unwrap();
        let mut stmt = conn.prepare(SQLITE_TABLE_INFOS_SQL).unwrap();
        let rows = stmt
            .query_map([], |row| {
                Ok(StoredTableRow {
                    table_name: row.get(0)?,
                    dataset_title: row.get(1)?,
                    description: row.get(2)?,
                    row_count: row.get(3)?,
                    column_names: row.get(4)?,
                })
            })
            .unwrap();
        let rows: Vec<Result<StoredTableRow, String>> =
            rows.map(|r| r.map_err(|e| e.to_string())).collect();
        self.pool.get_table_infos(EngineReply::Done(rows))
    }

    fn get_column_schemas(
        &self,
        names: &[String],
    ) -> Result<Vec<(String, Vec<ColumnSchema>)>, OpenEyesError> {
        let conn = self.pool.connection().lock().unwrap();
        let replies: Vec<DescribeReply> = names
            .iter()
            .map(|name| match DbPool::<Mutex<Connection>>::column_schema_statement(name) {
                None => DescribeReply::PrepareFailed,
                Some(sql) => match conn.prepare(&sql) {
                    Err(_) => DescribeReply::PrepareFailed,
                    Ok(mut stmt) => {
                        let rows = stmt.query_map([], |row| {
                            Ok(ColumnSchema { name: row.get(1)?, data_type: row.get(2)? })
                        });
                        match rows {
                            Err(e) => DescribeReply::QueryFailed(e.to_string()),
                            Ok(rows) => DescribeReply::Rows(rows.map(|r| r.ok()).collect()),
                        }
                    }
                },
            })
            .collect();
        self.pool.get_column_schemas(names, EngineReply::Done(replies))
    }
}

#[test]
fn test_open_and_init_schema() {
    let dir = tempfile::tempdir().unwrap();
    let path = dir.path().join("test.sqlite");
    let pool = TestDb::open(&path);
    pool.init_schema().unwrap();

    let tables = pool.query("SELECT name FROM sqlite_master WHERE type='table' ORDER BY name");
    let table_names: Vec<String> = tables.iter().map(|r| field_text(r, "name")).collect();

    assert!(table_names.contains(&"oe_chat_messages".to_string()));
    assert!(table_names.contains(&"oe_datasets".to_string()));
    assert!(table_names.contains(&"oe_resources".to_string()));
}

#[test]
fn test_init_schema_idempotent() {
    let dir = tempfile::tempdir().unwrap();
    let path = dir.path().join("test.sqlite");
    let pool = TestDb::open(&path);
    pool.init_schema().unwrap();
    pool.init_schema().unwrap();
}

#[test]
fn test_execute_and_query() {
    let dir = tempfile::tempdir().unwrap();
    let path = dir.path().join("test.sqlite");
    let pool = TestDb::open(&path);
    pool.init_schema().unwrap();

    pool.execute(
        "INSERT INTO oe_datasets (id, title, source_portal) VALUES ('test-1', 'Test Dataset', 'govdata.de')",
    )
    .unwrap();

    let rows = pool.query("SELECT id, title FROM oe_datasets WHERE id = 'test-1'");
    assert_eq!(rows.len(), 1);
    assert_eq!(field_text(&rows[0], "id"), "test-1");
    assert_eq!(field_text(&rows[0], "title"), "Test Dataset");
}

#[test]
fn test_execute_batch() {
    let dir = tempfile::tempdir().unwrap();
    let path = dir.path().join("test.sqlite");
    let pool = TestDb::open(&path);
    pool.init_schema().unwrap();

    pool.execute_batch(
        "INSERT INTO oe_datasets (id, title, source_portal) VALUES ('a', 'A', 'govdata.de');
         INSERT INTO oe_datasets (id, title, source_portal) VALUES ('b', 'B', 'govdata.de');",
    )
    .unwrap();

    let rows = pool.query("SELECT COUNT(*) AS cnt FROM oe_datasets");
    assert_eq!(field_i64(&rows[0], "cnt"), 2);
}

#[test]
fn test_get_table_infos_empty() {
    let dir = tempfile::tempdir().unwrap();
    let path = dir.path().join("test.sqlite");
    let pool = TestDb::open(&path);
    pool.init_schema().unwrap();

    let infos = pool.get_table_infos().unwrap();
    assert!(infos.is_empty());
}

#[test]
fn test_get_table_infos_with_loaded_resource() {
    let dir = tempfile::tempdir().unwrap();
    let path = dir.path().join("test.sqlite");
    let pool = TestDb::open(&path);
    pool.init_schema().unwrap();

    pool.execute(
        "INSERT INTO oe_datasets (id, title, source_portal) VALUES ('ds1', 'Test DS', 'govdata.de')",
    )
    .unwrap();
    pool.execute(
        r#"INSERT INTO oe_resources (id, dataset_id, url, table_name, row_count, column_names, download_status) VALUES ('r1', 'ds1', 'http://example.com', 'data_ds1_r1', 100, '["col_a", "col_b"]', 'loaded')"#,
    )
    .unwrap();
    pool.execute("CREATE TABLE data_ds1_r1 (col_a TEXT, col_b INTEGER)").unwrap();

    let infos = pool.get_table_infos().unwrap();
    assert_eq!(infos.len(), 1);
    assert_eq!(infos[0].table_name, "data_ds1_r1");
    assert_eq!(infos[0].dataset_title, "Test DS");
    assert_eq!(infos[0].row_count, 100);
}

#[test]
fn test_get_column_schemas() {
    let dir = tempfile::tempdir().unwrap();
    let path = dir.path().join("test.sqlite");
    let pool = TestDb::open(&path);

    pool.execute("CREATE TABLE test_table (name TEXT, age INTEGER, score REAL)").unwrap();

    let schemas = pool.get_column_schemas(&["test_table".to_string()]).unwrap();
    assert_eq!(schemas.len(), 1);
    assert_eq!(schemas[0].0, "test_table");
    assert_eq!(schemas[0].1.len(), 3);
    assert_eq!(schemas[0].1[0].name, "name");
    assert_eq!(schemas[0].1[1].name, "age");
    assert_eq!(schemas[0].1[2].name, "score");
}

#[test]
fn test_get_column_schemas_nonexistent_table() {
    let dir = tempfile::tempdir().unwrap();
    let path = dir.path().join("test.sqlite");
    let pool = TestDb::open(&path);

    let schemas = pool.get_column_schemas(&["nonexistent_table".to_string()]).unwrap();
    assert!(schemas.is_empty());
}

#[test]
fn test_chat_messages_insert_and_query() {
    let dir = tempfile::tempdir().unwrap();
    let path = dir.path().join("test.sqlite");
    let pool = TestDb::open(&path);
    pool.init_schema().unwrap();

    pool.execute(
        "INSERT INTO oe_chat_messages (session_id, role, content) VALUES ('sess1', 'user', 'What data is available?')",
    )
    .unwrap();
    pool.execute(
        "INSERT INTO oe_chat_messages (session_id, role, content, sql_query) VALUES ('sess1', 'assistant', 'Here are the datasets...', 'SELECT * FROM oe_datasets')",
    )
    .unwrap();

    let rows =
        pool.query("SELECT role, content FROM oe_chat_messages WHERE session_id = 'sess1' ORDER BY id");
    assert_eq!(rows.len(), 2);
    assert_eq!(field_text(&rows[0], "role"), "user");
    assert_eq!(field_text(&rows[1], "role"), "assistant");
}

#[test]
fn test_schema_supports_ingestion_workflow() {
    let dir = tempfile::tempdir().unwrap();
    let path = dir.path().join("ingest_test.sqlite");
    let pool = TestDb::open(&path);
    pool.init_schema().unwrap();

    pool.execute(
        r#"INSERT INTO oe_datasets (id, title, organization, categories, tags, source_portal)
         VALUES ('ds-001', 'Berlin Population Data', 'Statistisches Bundesamt',
         '["society", "population"]', '["berlin", "demographics"]', 'govdata.de')"#,
    )
    .unwrap();
    pool.execute(
        "INSERT INTO oe_resources (id, dataset_id, name, format, url, download_status) \
         VALUES ('r-001', 'ds-001', 'population.csv', 'CSV', 'https://example.com/pop.csv', 'pending')",
    )
    .unwrap();
    pool.execute(
        "INSERT INTO oe_resources (id, dataset_id, name, format, url, download_status) \
         VALUES ('r-002', 'ds-001', 'population.json', 'JSON', 'https://example.com/pop.json', 'pending')",
    )
    .unwrap();

    let pending =
        pool.query("SELECT COUNT(*) AS cnt FROM oe_resources WHERE download_status = 'pending'");
    assert_eq!(field_i64(&pending[0], "cnt"), 2);

    pool.execute("CREATE TABLE data_ds00001_r000001 (year INTEGER, population INTEGER, city TEXT)")
        .unwrap();
    pool.execute(
        "INSERT INTO data_ds00001_r000001 VALUES (2020, 3700000, 'Berlin'), (2021, 3750000, 'Berlin'), (2022, 3800000, 'Berlin')",
    )
    .unwrap();
    pool.execute(
        r#"UPDATE oe_resources SET download_status = 'loaded', table_name = 'data_ds00001_r000001',
         row_count = 3, column_names = '["year", "population", "city"]' WHERE id = 'r-001'"#,
    )
    .unwrap();
    pool.execute(
        "UPDATE oe_resources SET download_status = 'error', error_message = 'Connection timeout' WHERE id = 'r-002'",
    )
    .unwrap();

    let infos = pool.get_table_infos().unwrap();
    assert_eq!(infos.len(), 1);
    assert_eq!(infos[0].table_name, "data_ds00001_r000001");
    assert_eq!(infos[0].dataset_title, "Berlin Population Data");
    assert_eq!(infos[0].row_count, 3);

    let schemas = pool.get_column_schemas(&["data_ds00001_r000001".to_string()]).unwrap();
    assert_eq!(schemas.len(), 1);
    assert_eq!(schemas[0].1.len(), 3);

    let data = pool
        .query("SELECT city, SUM(population) AS total FROM data_ds00001_r000001 GROUP BY city");
    assert_eq!(data.len(), 1);
    assert_eq!(field_text(&data[0], "city"), "Berlin");

    let stats = pool.query("SELECT COUNT(*) AS cnt FROM oe_datasets");
    assert_eq!(field_i64(&stats[0], "cnt"), 1);

    let loaded =
        pool.query("SELECT COUNT(*) AS cnt FROM oe_resources WHERE download_status = 'loaded'");
    assert_eq!(field_i64(&loaded[0], "cnt"), 1);

    let errors =
        pool.query("SELECT COUNT(*) AS cnt FROM oe_resources WHERE download_status = 'error'");
    assert_eq!(field_i64(&errors[0], "cnt"), 1);
}

#[test]
fn test_json_array_columns_work() {
    let dir = tempfile::tempdir().unwrap();
    let path = dir.path().join("arrays_test.sqlite");
    let pool = TestDb::open(&path);
    pool.init_schema().unwrap();

    pool.execute(
        r#"INSERT INTO oe_datasets (id, title, categories, tags, source_portal)
         VALUES ('ds-arr', 'Array Test', '["cat1", "cat2", "cat3"]', '["tag1", "tag2"]', 'govdata.de')"#,
    )
    .unwrap();

    let cats = pool.query(
        "SELECT j.value AS cat FROM oe_datasets d, json_each(d.categories) j WHERE d.id = 'ds-arr'",
    );
    assert_eq!(cats.len(), 3);

    let lens =
        pool.query("SELECT json_array_length(tags) AS tag_count FROM oe_datasets WHERE id = 'ds-arr'");
    assert_eq!(field_i64(&lens[0], "tag_count"), 2);
}

#[test]
fn test_chat_message_ordering() {
    let dir = tempfile::tempdir().unwrap();
    let path = dir.path().join("chat_test.sqlite");
    let pool = TestDb::open(&path);
    pool.init_schema().unwrap();

    pool.execute(
        "INSERT INTO oe_chat_messages (session_id, role, content) VALUES ('s1', 'user', 'First question')",
    )
    .unwrap();
    pool.execute(
        "INSERT INTO oe_chat_messages (session_id, role, content, sql_query, chart_spec) \
         VALUES ('s1', 'assistant', 'Answer', 'SELECT 1', '{\"type\":\"bar\"}')",
    )
    .unwrap();
    pool.execute(
        "INSERT INTO oe_chat_messages (session_id, role, content) VALUES ('s1', 'user', 'Follow-up')",
    )
    .unwrap();

    let messages =
        pool.query("SELECT role, content FROM oe_chat_messages WHERE session_id = 's1' ORDER BY id");
    assert_eq!(messages.len(), 3);
    assert_eq!(field_text(&messages[0], "role"), "user");
    assert_eq!(field_text(&messages[1], "role"), "assistant");
    assert_eq!(field_text(&messages[2], "content"), "Follow-up");
}
