//! The two database stores of the application, a DuckDB one and an SQLite
//! one. The engines themselves are driven by the caller (they read and write
//! the database file); this module holds the statements each store runs and
//! how it turns the engine's replies into results.
use vstd::prelude::*;
use vstd::string::*;

use crate::arrays::{
    bracket_list_items, json_string_array, list_column_items, parse_duckdb_array_string,
    parse_json_array_string,
};
use crate::errors::OpenEyesError;
use crate::models::{ColumnSchema, TableInfo};
use crate::text::{concat2, is_alphanumeric, is_alphanumeric_char};

verus! {

/// DDL of the DuckDB store: `oe_datasets`, `oe_resources`, `oe_chat_messages`.
pub const DUCKDB_SCHEMA: &'static str = r#"
            CREATE TABLE IF NOT EXISTS oe_datasets (
                id VARCHAR PRIMARY KEY,
                title VARCHAR NOT NULL,
                title_de VARCHAR,
                description VARCHAR,
                description_de VARCHAR,
                organization VARCHAR,
                categories VARCHAR[],
                tags VARCHAR[],
                license VARCHAR,
                source_portal VARCHAR DEFAULT 'govdata.de',
                ckan_url VARCHAR,
                created_at TIMESTAMP,
                modified_at TIMESTAMP,
                ingested_at TIMESTAMP DEFAULT now()
            );

            CREATE TABLE IF NOT EXISTS oe_resources (
                id VARCHAR PRIMARY KEY,
                dataset_id VARCHAR NOT NULL REFERENCES oe_datasets(id),
                name VARCHAR,
                format VARCHAR,
                url VARCHAR NOT NULL,
                table_name VARCHAR,
                row_count BIGINT,
                column_names VARCHAR[],
                download_status VARCHAR DEFAULT 'pending',
                error_message VARCHAR,
                ingested_at TIMESTAMP DEFAULT now()
            );

            CREATE SEQUENCE IF NOT EXISTS oe_chat_messages_seq;

            CREATE TABLE IF NOT EXISTS oe_chat_messages (
                id BIGINT PRIMARY KEY DEFAULT nextval('oe_chat_messages_seq'),
                session_id VARCHAR NOT NULL,
                role VARCHAR NOT NULL,
                content VARCHAR NOT NULL,
                sql_query VARCHAR,
                chart_spec VARCHAR,
                created_at TIMESTAMP DEFAULT now()
            );
            "#;

/// Query for the loaded tables and their metadata, in the DuckDB store.
pub const DUCKDB_TABLE_INFOS_SQL: &'static str = r#"
            SELECT r.table_name, d.title, d.description, r.row_count,
                   CAST(r.column_names AS VARCHAR) AS column_names_str
            FROM oe_resources r
            JOIN oe_datasets d ON r.dataset_id = d.id
            WHERE r.table_name IS NOT NULL AND r.download_status = 'loaded'
            ORDER BY r.row_count DESC
        "#;

/// DDL of the SQLite store: `oe_datasets`, `oe_resources`, `oe_chat_messages`.
pub const SQLITE_SCHEMA: &'static str = r#"
            CREATE TABLE IF NOT EXISTS oe_datasets (
                id TEXT PRIMARY KEY,
                title TEXT NOT NULL,
                title_de TEXT,
                description TEXT,
                description_de TEXT,
                organization TEXT,
                categories TEXT DEFAULT '[]',
                tags TEXT DEFAULT '[]',
                license TEXT,
                source_portal TEXT DEFAULT 'govdata.de',
                ckan_url TEXT,
                created_at TEXT,
                modified_at TEXT,
                ingested_at TEXT DEFAULT (datetime('now'))
            );

            CREATE TABLE IF NOT EXISTS oe_resources (
                id TEXT PRIMARY KEY,
                dataset_id TEXT NOT NULL REFERENCES oe_datasets(id),
                name TEXT,
                format TEXT,
                url TEXT NOT NULL,
                table_name TEXT,
                row_count INTEGER,
                column_names TEXT DEFAULT '[]',
                download_status TEXT DEFAULT 'pending',
                error_message TEXT,
                ingested_at TEXT DEFAULT (datetime('now'))
            );

            CREATE TABLE IF NOT EXISTS oe_chat_messages (
                id INTEGER PRIMARY KEY AUTOINCREMENT,
                session_id TEXT NOT NULL,
                role TEXT NOT NULL,
                content TEXT NOT NULL,
                sql_query TEXT,
                chart_spec TEXT,
                created_at TEXT DEFAULT (datetime('now'))
            );
            "#;

/// Query for the loaded tables and their metadata, in the SQLite store.
pub const SQLITE_TABLE_INFOS_SQL: &'static str = r#"
            SELECT r.table_name, d.title, d.description, r.row_count,
                   r.column_names AS column_names_str
            FROM oe_resources r
            JOIN oe_datasets d ON r.dataset_id = d.id
            WHERE r.table_name IS NOT NULL AND r.download_status = 'loaded'
            ORDER BY r.row_count DESC
        "#;

/// What the database engine answered to one request.
pub enum EngineReply<T> {
    /// The connection's lock was poisoned; the text of the lock error.
    LockFailed(String),
    /// The engine refused the request; the text of its error.
    Failed(String),
    /// The engine carried the request out.
    Done(T),
}

/// One row of the table-info query, as the engine decoded it.
pub struct StoredTableRow {
    pub table_name: String,
    pub dataset_title: String,
    pub description: Option<String>,
    pub row_count: Option<i64>,
    pub column_names: Option<String>,
}

/// What the engine answered when asked for the columns of one table.
pub enum DescribeReply {
    /// The statement could not be prepared (for instance, no such table).
    PrepareFailed,
    /// The statement was prepared but running it failed; the error text.
    QueryFailed(String),
    /// The rows it produced; `None` for a row that could not be decoded.
    Rows(Vec<Option<ColumnSchema>>),
}

/// The result of a request whose only outcome is success or an error: a
/// poisoned lock as `Other`, an engine error as the store's kind (`DuckDb`
/// or `Sqlite`).
pub open spec fn reply_result<T>(reply: EngineReply<T>, duck: bool) -> Result<T, OpenEyesError> {
    match reply {
        EngineReply::LockFailed(e) => Err(OpenEyesError::Other(e)),
        EngineReply::Failed(e) => Err(
            if duck {
                OpenEyesError::DuckDb(e)
            } else {
                OpenEyesError::Sqlite(e)
            },
        ),
        EngineReply::Done(v) => Ok(v),
    }
}

fn map_reply<T>(reply: EngineReply<T>, duck: bool) -> (r: Result<T, OpenEyesError>)
    ensures
        r == reply_result(reply, duck),
{
    match reply {
        EngineReply::LockFailed(e) => Err(OpenEyesError::Other(e)),
        EngineReply::Failed(e) => Err(
            if duck {
                OpenEyesError::DuckDb(e)
            } else {
                OpenEyesError::Sqlite(e)
            },
        ),
        EngineReply::Done(v) => Ok(v),
    }
}

/// The table info a stored row describes, its column list read by `columns`.
pub open spec fn table_info_of(row: StoredTableRow, columns: Seq<Seq<char>>) -> (
    Seq<char>,
    Seq<char>,
    Option<String>,
    i64,
    Seq<Seq<char>>,
) {
    (
        row.table_name@,
        row.dataset_title@,
        row.description,
        match row.row_count {
            Some(n) => n,
            None => 0,
        },
        columns,
    )
}

/// The view of a table info, field by field.
pub open spec fn table_info_view(t: TableInfo) -> (
    Seq<char>,
    Seq<char>,
    Option<String>,
    i64,
    Seq<Seq<char>>,
) {
    (t.table_name@, t.dataset_title@, t.description, t.row_count, t.column_names.deep_view())
}

/// The column list of a DuckDB row: its text read as a bracketed list, an
/// absent text read as empty.
pub open spec fn duckdb_columns(row: StoredTableRow) -> Seq<Seq<char>> {
    match row.column_names {
        Some(s) => bracket_list_items(s@),
        None => bracket_list_items(Seq::empty()),
    }
}

/// The column list of a SQLite row: its text read as a JSON array (or as a
/// bracketed list), an absent text read as `[]`.
pub open spec fn sqlite_columns(row: StoredTableRow) -> Seq<Seq<char>> {
    match row.column_names {
        Some(s) => list_column_items(json_string_array(s@), s@),
        None => list_column_items(json_string_array("[]"@), "[]"@),
    }
}

/// Whether every row was decoded.
pub open spec fn all_rows_ok(rows: Seq<Result<StoredTableRow, String>>) -> bool {
    forall|i: int| 0 <= i < rows.len() ==> rows[i] is Ok
}

/// The error of the first row that could not be decoded.
pub open spec fn first_row_error(rows: Seq<Result<StoredTableRow, String>>) -> String
    decreases rows.len(),
{
    if rows.len() == 0 {
        arbitrary()
    } else {
        match rows[0] {
            Err(e) => e,
            Ok(_) => first_row_error(rows.drop_first()),
        }
    }
}

/// Whether `infos` are the table infos of `rows`, read by the store's rules.
pub open spec fn table_infos_of(
    infos: Seq<TableInfo>,
    rows: Seq<Result<StoredTableRow, String>>,
    duck: bool,
) -> bool {
    &&& infos.len() == rows.len()
    &&& forall|i: int|
        0 <= i < rows.len() ==> #[trigger] table_info_view(infos[i]) == table_info_of(
            rows[i]->Ok_0,
            if duck {
                duckdb_columns(rows[i]->Ok_0)
            } else {
                sqlite_columns(rows[i]->Ok_0)
            },
        )
}

fn clone_opt_string(s: &Option<String>) -> (r: Option<String>)
    ensures
        r == *s,
{
    match s {
        Some(v) => Some(v.clone()),
        None => None,
    }
}

fn decode_table_infos(rows: &Vec<Result<StoredTableRow, String>>, duck: bool) -> (r: Result<
    Vec<TableInfo>,
    String,
>)
    ensures
        match r {
            Ok(infos) => all_rows_ok(rows@) && table_infos_of(infos@, rows@, duck),
            Err(e) => !all_rows_ok(rows@) && e == first_row_error(rows@),
        },
{
    let mut infos: Vec<TableInfo> = Vec::new();
    let mut i: usize = 0;
    assert(rows@.subrange(0, rows@.len() as int) =~= rows@);
    while i < rows.len()
        invariant
            i <= rows@.len(),
            infos@.len() == i,
            forall|k: int| 0 <= k < i ==> rows@[k] is Ok,
            forall|k: int|
                0 <= k < i ==> #[trigger] table_info_view(infos@[k]) == table_info_of(
                    rows@[k]->Ok_0,
                    if duck {
                        duckdb_columns(rows@[k]->Ok_0)
                    } else {
                        sqlite_columns(rows@[k]->Ok_0)
                    },
                ),
            first_row_error(rows@) == first_row_error(rows@.subrange(i as int, rows@.len() as int)),
        decreases rows@.len() - i,
    {
        assert(rows@.subrange(i as int, rows@.len() as int).drop_first() =~= rows@.subrange(
            i as int + 1,
            rows@.len() as int,
        ));
        match &rows[i] {
            Err(e) => {
                assert(!all_rows_ok(rows@));
                return Err(e.clone());
            },
            Ok(row) => {
                let columns = match &row.column_names {
                    Some(s) => if duck {
                        parse_duckdb_array_string(s.as_str())
                    } else {
                        parse_json_array_string(s.as_str())
                    },
                    None => if duck {
                        proof {
                            reveal_strlit("");
                        }
                        parse_duckdb_array_string("")
                    } else {
                        parse_json_array_string("[]")
                    },
                };
                let info = TableInfo {
                    table_name: row.table_name.clone(),
                    dataset_title: row.dataset_title.clone(),
                    description: clone_opt_string(&row.description),
                    row_count: match row.row_count {
                        Some(n) => n,
                        None => 0,
                    },
                    column_names: columns,
                };
                infos.push(info);
            },
        }
        i = i + 1;
    }
    Ok(infos)
}

/// The tables whose columns were described, in request order: a table whose
/// statement could not be prepared is passed over, the first failing query
/// ends the listing with its error, and undecodable rows are left out.
/// `checked` says whether names are first held to the identifier rule (and
/// tables without columns left out), as the SQLite store does.
pub open spec fn described_tables(
    names: Seq<Seq<char>>,
    replies: Seq<DescribeReply>,
    checked: bool,
) -> Result<Seq<(Seq<char>, Seq<ColumnSchema>)>, String>
    decreases names.len(),
{
    if names.len() == 0 {
        Ok(Seq::empty())
    } else {
        let n = names.len() - 1;
        match described_tables(names.drop_last(), replies, checked) {
            Err(e) => Err(e),
            Ok(prev) => if checked && !is_table_identifier(names[n]) {
                Ok(prev)
            } else {
                match replies[n] {
                    DescribeReply::PrepareFailed => Ok(prev),
                    DescribeReply::QueryFailed(e) => Err(e),
                    DescribeReply::Rows(rows) => {
                        let cols = decoded_columns(rows@);
                        if checked && cols.len() == 0 {
                            Ok(prev)
                        } else {
                            Ok(prev.push((names[n], cols)))
                        }
                    },
                }
            },
        }
    }
}

/// The rows that were decoded, in order.
pub open spec fn decoded_columns(rows: Seq<Option<ColumnSchema>>) -> Seq<ColumnSchema>
    decreases rows.len(),
{
    if rows.len() == 0 {
        Seq::empty()
    } else {
        let prev = decoded_columns(rows.drop_last());
        match rows.last() {
            Some(c) => prev.push(c),
            None => prev,
        }
    }
}

/// The columns of a table are exactly its rows that were decoded, in order:
/// a row that could not be decoded is passed over.
pub proof fn lemma_decoded_columns_are_decoded_rows(rows: Seq<Option<ColumnSchema>>)
    ensures
        decoded_columns(rows) == rows.filter(|r: Option<ColumnSchema>| r is Some).map_values(
            |r: Option<ColumnSchema>| r->0,
        ),
    decreases rows.len(),
{
    reveal(Seq::filter);
    let ok = |r: Option<ColumnSchema>| r is Some;
    let un = |r: Option<ColumnSchema>| r->0;
    if rows.len() == 0 {
        assert(rows.filter(ok) =~= Seq::<Option<ColumnSchema>>::empty());
        assert(rows.filter(ok).map_values(un) =~= Seq::<ColumnSchema>::empty());
    } else {
        let p = rows.drop_last();
        lemma_decoded_columns_are_decoded_rows(p);
        let x = rows.last();
        let fp = p.filter(ok);
        if ok(x) {
            assert(rows.filter(ok) == fp.push(x));
            assert(fp.push(x).map_values(un) =~= fp.map_values(un).push(un(x)));
        } else {
            assert(rows.filter(ok) == fp);
        }
    }
}

/// Whether a table name consists of alphanumeric characters and `_` only.
pub open spec fn is_table_identifier(name: Seq<char>) -> bool {
    forall|i: int| 0 <= i < name.len() ==> is_alphanumeric(#[trigger] name[i]) || name[i] == '_'
}

/// Executable check of `is_table_identifier`.
pub fn table_identifier_ok(name: &str) -> (b: bool)
    ensures
        b == is_table_identifier(name@),
{
    let n = name.unicode_len();
    let mut i: usize = 0;
    while i < n
        invariant
            n == name@.len(),
            i <= n,
            forall|k: int| 0 <= k < i ==> is_alphanumeric(#[trigger] name@[k]) || name@[k] == '_',
        decreases n - i,
    {
        let c = name.get_char(i);
        if !(is_alphanumeric_char(c) || c == '_') {
            return false;
        }
        i = i + 1;
    }
    true
}

/// The view of a described-tables result.
pub open spec fn described_view(v: Seq<(String, Vec<ColumnSchema>)>) -> Seq<(Seq<char>, Seq<ColumnSchema>)> {
    Seq::new(v.len(), |i: int| (v[i].0@, v[i].1@))
}

fn clone_columns(rows: &Vec<Option<ColumnSchema>>) -> (r: Vec<ColumnSchema>)
    ensures
        r@ == decoded_columns(rows@),
{
    let mut out: Vec<ColumnSchema> = Vec::new();
    let mut i: usize = 0;
    while i < rows.len()
        invariant
            i <= rows@.len(),
            out@ == decoded_columns(rows@.subrange(0, i as int)),
        decreases rows@.len() - i,
    {
        assert(rows@.subrange(0, i as int + 1).drop_last() =~= rows@.subrange(0, i as int));
        match &rows[i] {
            Some(c) => {
                out.push(ColumnSchema { name: c.name.clone(), data_type: c.data_type.clone() });
            },
            None => {},
        }
        i = i + 1;
    }
    assert(rows@.subrange(0, rows@.len() as int) =~= rows@);
    out
}

fn collect_described(names: &[String], replies: &Vec<DescribeReply>, checked: bool) -> (r: Result<
    Vec<(String, Vec<ColumnSchema>)>,
    String,
>)
    requires
        replies@.len() == names@.len(),
    ensures
        match r {
            Ok(v) => described_tables(names@.map_values(|s: String| s@), replies@, checked) == Ok::<
                Seq<(Seq<char>, Seq<ColumnSchema>)>,
                String,
            >(described_view(v@)),
            Err(e) => described_tables(names@.map_values(|s: String| s@), replies@, checked) == Err::<
                Seq<(Seq<char>, Seq<ColumnSchema>)>,
                String,
            >(e),
        },
{
    let ghost all = names@.map_values(|s: String| s@);
    let mut out: Vec<(String, Vec<ColumnSchema>)> = Vec::new();
    let mut i: usize = 0;
    assert(all.subrange(0, 0) =~= Seq::<Seq<char>>::empty());
    assert(described_view(out@) =~= Seq::<(Seq<char>, Seq<ColumnSchema>)>::empty());
    assert(described_tables(all.subrange(0, 0), replies@, checked) == Ok::<
        Seq<(Seq<char>, Seq<ColumnSchema>)>,
        String,
    >(Seq::empty()));
    while i < names.len()
        invariant
            i <= names@.len(),
            replies@.len() == names@.len(),
            all == names@.map_values(|s: String| s@),
            described_tables(all.subrange(0, i as int), replies@, checked) == Ok::<
                Seq<(Seq<char>, Seq<ColumnSchema>)>,
                String,
            >(described_view(out@)),
        decreases names@.len() - i,
    {
        let ghost prefix = all.subrange(0, i as int + 1);
        assert(prefix.drop_last() =~= all.subrange(0, i as int));
        assert(prefix[i as int] == names@[i as int]@);
        let name = &names[i];
        let ok_name = if checked {
            table_identifier_ok(name.as_str())
        } else {
            true
        };
        if ok_name {
            match &replies[i] {
                DescribeReply::PrepareFailed => {},
                DescribeReply::QueryFailed(e) => {
                    proof {
                        lemma_described_error_sticks(all, replies@, checked, i as int + 1);
                    }
                    return Err(e.clone());
                },
                DescribeReply::Rows(rows) => {
                    let cols = clone_columns(rows);
                    if !(checked && cols.len() == 0) {
                        let ghost before = out@;
                        out.push((name.clone(), cols));
                        assert(described_view(out@) =~= described_view(before).push(
                            (names@[i as int]@, cols@),
                        ));
                    }
                },
            }
        }
        i = i + 1;
    }
    assert(all.subrange(0, names@.len() as int) =~= all);
    Ok(out)
}

/// Once the listing of a prefix fails, listing any longer prefix fails with
/// the same error.
proof fn lemma_described_error_sticks(
    names: Seq<Seq<char>>,
    replies: Seq<DescribeReply>,
    checked: bool,
    k: int,
)
    requires
        0 <= k <= names.len(),
        described_tables(names.subrange(0, k), replies, checked) is Err,
    ensures
        described_tables(names, replies, checked) == described_tables(
            names.subrange(0, k),
            replies,
            checked,
        ),
    decreases names.len() - k,
{
    if k == names.len() {
        assert(names.subrange(0, k) =~= names);
    } else {
        assert(names.subrange(0, k + 1).drop_last() =~= names.subrange(0, k));
        lemma_described_error_sticks(names, replies, checked, k + 1);
    }
}

// ---------------------------------------------------------------------------
// DuckDB store
// ---------------------------------------------------------------------------

/// Thread-safe DuckDB connection pool (a single connection behind a lock).
/// `C` is the caller's shared connection; the caller runs the statements this
/// pool names and hands it the engine's replies.
pub struct DuckDbPool<C> {
    conn: C,
}

impl<C> DuckDbPool<C> {
    /// The connection the pool holds.
    pub closed spec fn handle(&self) -> C {
        self.conn
    }

    /// A pool over an open connection.
    pub fn new(conn: C) -> (r: Self)
        ensures
            r.handle() == conn,
    {
        DuckDbPool { conn }
    }

    /// The connection the pool holds, for running its statements.
    pub fn connection(&self) -> (r: &C)
        ensures
            *r == self.handle(),
    {
        &self.conn
    }

    /// Initializes the metadata schema: the outcome of running
    /// `DUCKDB_SCHEMA` as a batch.
    pub fn init_schema(&self, reply: EngineReply<()>) -> (r: Result<(), OpenEyesError>)
        ensures
            r == reply_result(reply, true),
    {
        map_reply(reply, true)
    }

    /// Executes a non-query statement: the number of rows it changed.
    pub fn execute(&self, reply: EngineReply<usize>) -> (r: Result<usize, OpenEyesError>)
        ensures
            r == reply_result(reply, true),
    {
        map_reply(reply, true)
    }

    /// Executes a batch of statements.
    pub fn execute_batch(&self, reply: EngineReply<()>) -> (r: Result<(), OpenEyesError>)
        ensures
            r == reply_result(reply, true),
    {
        map_reply(reply, true)
    }

    /// All loaded tables with their metadata, from the rows of
    /// `DUCKDB_TABLE_INFOS_SQL`: a missing row count reads as 0 and the
    /// column list is read from DuckDB's `[a, b]` text.
    pub fn get_table_infos(&self, reply: EngineReply<Vec<Result<StoredTableRow, String>>>) -> (r:
        Result<Vec<TableInfo>, OpenEyesError>)
        ensures
            match reply {
                EngineReply::LockFailed(e) => r == Err::<Vec<TableInfo>, OpenEyesError>(
                    OpenEyesError::Other(e),
                ),
                EngineReply::Failed(e) => r == Err::<Vec<TableInfo>, OpenEyesError>(
                    OpenEyesError::DuckDb(e),
                ),
                EngineReply::Done(rows) => match r {
                    Ok(infos) => all_rows_ok(rows@) && table_infos_of(infos@, rows@, true),
                    Err(e) => !all_rows_ok(rows@) && e == OpenEyesError::DuckDb(
                        first_row_error(rows@),
                    ),
                },
            },
    {
        match reply {
            EngineReply::LockFailed(e) => Err(OpenEyesError::Other(e)),
            EngineReply::Failed(e) => Err(OpenEyesError::DuckDb(e)),
            EngineReply::Done(rows) => match decode_table_infos(&rows, true) {
                Ok(infos) => Ok(infos),
                Err(e) => Err(OpenEyesError::DuckDb(e)),
            },
        }
    }

    /// Column schemas of the named tables, from the replies to
    /// `describe_statement` for each name in turn.
    pub fn get_column_schemas(&self, table_names: &[String], reply: EngineReply<Vec<DescribeReply>>) -> (r:
        Result<Vec<(String, Vec<ColumnSchema>)>, OpenEyesError>)
        requires
            reply matches EngineReply::Done(replies) ==> replies@.len() == table_names@.len(),
        ensures
            match reply {
                EngineReply::LockFailed(e) => r == Err::<Vec<(String, Vec<ColumnSchema>)>, OpenEyesError>(
                    OpenEyesError::Other(e),
                ),
                EngineReply::Failed(e) => r == Err::<Vec<(String, Vec<ColumnSchema>)>, OpenEyesError>(
                    OpenEyesError::DuckDb(e),
                ),
                EngineReply::Done(replies) => match r {
                    Ok(v) => described_tables(table_names@.map_values(|s: String| s@), replies@, false)
                        == Ok::<Seq<(Seq<char>, Seq<ColumnSchema>)>, String>(described_view(v@)),
                    Err(e) => exists|msg: String|
                        described_tables(table_names@.map_values(|s: String| s@), replies@, false)
                            == Err::<Seq<(Seq<char>, Seq<ColumnSchema>)>, String>(msg) && e
                            == OpenEyesError::DuckDb(msg),
                },
            },
    {
        match reply {
            EngineReply::LockFailed(e) => Err(OpenEyesError::Other(e)),
            EngineReply::Failed(e) => Err(OpenEyesError::DuckDb(e)),
            EngineReply::Done(replies) => match collect_described(table_names, &replies, false) {
                Ok(v) => Ok(v),
                Err(e) => Err(OpenEyesError::DuckDb(e)),
            },
        }
    }
}

/// The statement that lists the columns of a table in DuckDB.
pub fn describe_statement(table_name: &str) -> (r: String)
    ensures
        r@ == "DESCRIBE "@ + table_name@,
{
    concat2("DESCRIBE ", table_name)
}

/// The DuckDB store as shared with the dashboard's request handlers.
pub struct DuckDbState<C>(pub DuckDbPool<C>);

// ---------------------------------------------------------------------------
// SQLite store
// ---------------------------------------------------------------------------

/// Thread-safe SQLite connection pool (a single connection behind a lock).
/// `C` is the caller's shared connection; the caller runs the statements this
/// pool names and hands it the engine's replies.
pub struct DbPool<C> {
    conn: C,
}

impl<C> DbPool<C> {
    /// The connection the pool holds.
    pub closed spec fn handle(&self) -> C {
        self.conn
    }

    /// A pool over an open connection.
    pub fn new(conn: C) -> (r: Self)
        ensures
            r.handle() == conn,
    {
        DbPool { conn }
    }

    /// The connection the pool holds, for running its statements.
    pub fn connection(&self) -> (r: &C)
        ensures
            *r == self.handle(),
    {
        &self.conn
    }

    /// Initializes the metadata schema: the outcome of running
    /// `SQLITE_SCHEMA` as a batch.
    pub fn init_schema(&self, reply: EngineReply<()>) -> (r: Result<(), OpenEyesError>)
        ensures
            r == reply_result(reply, false),
    {
        map_reply(reply, false)
    }

    /// Executes a non-query statement: the number of rows it changed.
    pub fn execute(&self, reply: EngineReply<usize>) -> (r: Result<usize, OpenEyesError>)
        ensures
            r == reply_result(reply, false),
    {
        map_reply(reply, false)
    }

    /// Executes a batch of statements.
    pub fn execute_batch(&self, reply: EngineReply<()>) -> (r: Result<(), OpenEyesError>)
        ensures
            r == reply_result(reply, false),
    {
        map_reply(reply, false)
    }

    /// All loaded tables with their metadata, from the rows of
    /// `SQLITE_TABLE_INFOS_SQL`: a missing row count reads as 0 and the column
    /// list is read from its JSON text (a missing one as `[]`).
    pub fn get_table_infos(&self, reply: EngineReply<Vec<Result<StoredTableRow, String>>>) -> (r:
        Result<Vec<TableInfo>, OpenEyesError>)
        ensures
            match reply {
                EngineReply::LockFailed(e) => r == Err::<Vec<TableInfo>, OpenEyesError>(
                    OpenEyesError::Other(e),
                ),
                EngineReply::Failed(e) => r == Err::<Vec<TableInfo>, OpenEyesError>(
                    OpenEyesError::Sqlite(e),
                ),
                EngineReply::Done(rows) => match r {
                    Ok(infos) => all_rows_ok(rows@) && table_infos_of(infos@, rows@, false),
                    Err(e) => !all_rows_ok(rows@) && e == OpenEyesError::Sqlite(
                        first_row_error(rows@),
                    ),
                },
            },
    {
        match reply {
            EngineReply::LockFailed(e) => Err(OpenEyesError::Other(e)),
            EngineReply::Failed(e) => Err(OpenEyesError::Sqlite(e)),
            EngineReply::Done(rows) => match decode_table_infos(&rows, false) {
                Ok(infos) => Ok(infos),
                Err(e) => Err(OpenEyesError::Sqlite(e)),
            },
        }
    }

    /// The statement that lists the columns of a table, or `None` where the
    /// name is not an identifier of alphanumeric characters and `_` (such
    /// names are never sent to the engine).
    pub fn column_schema_statement(table_name: &str) -> (r: Option<String>)
        ensures
            match r {
                Some(s) => is_table_identifier(table_name@) && s@ == "PRAGMA table_info("@
                    + table_name@ + ")"@,
                None => !is_table_identifier(table_name@),
            },
    {
        if table_identifier_ok(table_name) {
            let mut s = concat2("PRAGMA table_info(", table_name);
            s.append(")");
            Some(s)
        } else {
            None
        }
    }

    /// Column schemas of the named tables, from the replies to
    /// `column_schema_statement` for each name in turn (the reply for a name
    /// that has no statement is not read): names that are not identifiers and
    /// tables without columns are left out.
    pub fn get_column_schemas(&self, table_names: &[String], reply: EngineReply<Vec<DescribeReply>>) -> (r:
        Result<Vec<(String, Vec<ColumnSchema>)>, OpenEyesError>)
        requires
            reply matches EngineReply::Done(replies) ==> replies@.len() == table_names@.len(),
        ensures
            match reply {
                EngineReply::LockFailed(e) => r == Err::<Vec<(String, Vec<ColumnSchema>)>, OpenEyesError>(
                    OpenEyesError::Other(e),
                ),
                EngineReply::Failed(e) => r == Err::<Vec<(String, Vec<ColumnSchema>)>, OpenEyesError>(
                    OpenEyesError::Sqlite(e),
                ),
                EngineReply::Done(replies) => match r {
                    Ok(v) => described_tables(table_names@.map_values(|s: String| s@), replies@, true)
                        == Ok::<Seq<(Seq<char>, Seq<ColumnSchema>)>, String>(described_view(v@)),
                    Err(e) => exists|msg: String|
                        described_tables(table_names@.map_values(|s: String| s@), replies@, true)
                            == Err::<Seq<(Seq<char>, Seq<ColumnSchema>)>, String>(msg) && e
                            == OpenEyesError::Sqlite(msg),
                },
            },
    {
        match reply {
            EngineReply::LockFailed(e) => Err(OpenEyesError::Other(e)),
            EngineReply::Failed(e) => Err(OpenEyesError::Sqlite(e)),
            EngineReply::Done(replies) => match collect_described(table_names, &replies, true) {
                Ok(v) => Ok(v),
                Err(e) => Err(OpenEyesError::Sqlite(e)),
            },
        }
    }
}

/// Every table the SQLite store reports columns for was asked for, has an
/// identifier for a name, and has at least one column.
pub proof fn lemma_sqlite_described_tables_checked(names: Seq<Seq<char>>, replies: Seq<DescribeReply>)
    ensures
        described_tables(names, replies, true) matches Ok(v) ==> forall|i: int|
            0 <= i < v.len() ==> is_table_identifier(#[trigger] v[i].0) && v[i].1.len() > 0
                && names.contains(v[i].0),
    decreases names.len(),
{
    if names.len() > 0 {
        lemma_sqlite_described_tables_checked(names.drop_last(), replies);
        if let Ok(v) = described_tables(names, replies, true) {
            let n = names.len() - 1;
            assert forall|i: int| 0 <= i < v.len() implies is_table_identifier(#[trigger] v[i].0)
                && v[i].1.len() > 0 && names.contains(v[i].0) by {
                if let Ok(prev) = described_tables(names.drop_last(), replies, true) {
                    if i < prev.len() {
                        assert(v[i] == prev[i]);
                        let j = choose|j: int| 0 <= j < names.drop_last().len() && names.drop_last()[j] == prev[i].0;
                        assert(names[j] == v[i].0);
                    } else {
                        assert(names[n] == v[i].0);
                    }
                }
            }
        }
    }
}

} // verus!
