//! The dashboard's data requests: the queries each page runs and how the
//! rows they return are read into the records the pages show.
use vstd::prelude::*;
use vstd::string::*;

use crate::arrays::{bracket_list_items, parse_array_str};
use crate::ingest::preview_table_allowed;
use crate::models::{CategoryCount, OverviewStats};
use crate::text::{
    concat2, contains_char, decimal, escape_sql, has_char, has_prefix, sql_escape, starts_with,
    str_equal, u64_to_decimal, decimal_int, i64_to_decimal,
};

verus! {

// ---------------------------------------------------------------------------
// Query rows
// ---------------------------------------------------------------------------

/// A value of a query row, as the dashboard reads it.
#[derive(Debug, Clone)]
pub enum JsonScalar {
    Null,
    Bool(bool),
    /// A non-negative integer.
    PosInt(u64),
    /// A negative integer.
    NegInt(i64),
    /// A number with a fractional part or exponent, by its JSON text.
    Float(String),
    /// A string.
    Text(String),
    /// An array or object, by its JSON text.
    Compound(String),
}

/// One query row: its columns and values, in order.
#[derive(Debug, Clone)]
pub struct JsonRow {
    pub fields: Vec<(String, JsonScalar)>,
}

/// The value of a column (`row.get(key)`): that of the first field of that
/// name, none where there is none.
pub open spec fn field_entry(fields: Seq<(String, JsonScalar)>, key: Seq<char>) -> Option<JsonScalar>
    decreases fields.len(),
{
    if fields.len() == 0 {
        None
    } else if fields[0].0@ == key {
        Some(fields[0].1)
    } else {
        field_entry(fields.drop_first(), key)
    }
}

/// The value of a column (`row[key]`): `null` where there is none.
pub open spec fn field_value(fields: Seq<(String, JsonScalar)>, key: Seq<char>) -> JsonScalar {
    match field_entry(fields, key) {
        Some(v) => v,
        None => JsonScalar::Null,
    }
}

/// `value.as_str().unwrap_or("")`.
pub open spec fn text_or_empty(v: JsonScalar) -> Seq<char> {
    match v {
        JsonScalar::Text(s) => s@,
        _ => Seq::empty(),
    }
}

/// `value.as_u64().unwrap_or(0)`.
pub open spec fn u64_or_zero(v: JsonScalar) -> u64 {
    match v {
        JsonScalar::PosInt(n) => n,
        _ => 0,
    }
}

/// `value.as_i64().unwrap_or(0)`.
pub open spec fn i64_or_zero(v: JsonScalar) -> i64 {
    match v {
        JsonScalar::PosInt(n) => if n <= i64::MAX as u64 {
            n as i64
        } else {
            0
        },
        JsonScalar::NegInt(n) => n,
        _ => 0,
    }
}

/// The text of a column, empty where it is missing or not a string.
pub open spec fn row_text(r: JsonRow, key: Seq<char>) -> Seq<char> {
    text_or_empty(field_value(r.fields@, key))
}

/// The unsigned number of a column, 0 where it is missing or not one.
pub open spec fn row_u64(r: JsonRow, key: Seq<char>) -> u64 {
    u64_or_zero(field_value(r.fields@, key))
}

/// The signed number of a column, 0 where it is missing or not one.
pub open spec fn row_i64(r: JsonRow, key: Seq<char>) -> i64 {
    i64_or_zero(field_value(r.fields@, key))
}

/// The value of a column of a row, if it has one.
pub fn find_field<'a>(row: &'a JsonRow, key: &str) -> (r: Option<&'a JsonScalar>)
    ensures
        match r {
            Some(v) => field_entry(row.fields@, key@) == Some(*v),
            None => field_entry(row.fields@, key@) is None,
        },
{
    let mut i: usize = 0;
    assert(row.fields@.subrange(0, row.fields@.len() as int) =~= row.fields@);
    while i < row.fields.len()
        invariant
            i <= row.fields@.len(),
            field_entry(row.fields@, key@) == field_entry(
                row.fields@.subrange(i as int, row.fields@.len() as int),
                key@,
            ),
        decreases row.fields@.len() - i,
    {
        let ghost rest = row.fields@.subrange(i as int, row.fields@.len() as int);
        assert(rest.drop_first() =~= row.fields@.subrange(i as int + 1, row.fields@.len() as int));
        assert(rest[0] == row.fields@[i as int]);
        if str_equal(row.fields[i].0.as_str(), key) {
            return Some(&row.fields[i].1);
        }
        i = i + 1;
    }
    None
}

/// The text of a column, empty where it is missing or not a string.
pub fn field_text(row: &JsonRow, key: &str) -> (r: String)
    ensures
        r@ == row_text(*row, key@),
{
    match find_field(row, key) {
        Some(JsonScalar::Text(s)) => s.clone(),
        _ => String::new(),
    }
}

/// The unsigned number of a column, 0 where it is missing or not one.
pub fn field_u64(row: &JsonRow, key: &str) -> (r: u64)
    ensures
        r == row_u64(*row, key@),
{
    match find_field(row, key) {
        Some(JsonScalar::PosInt(n)) => *n,
        _ => 0,
    }
}

/// The signed number of a column, 0 where it is missing or not one.
pub fn field_i64(row: &JsonRow, key: &str) -> (r: i64)
    ensures
        r == row_i64(*row, key@),
{
    match find_field(row, key) {
        Some(JsonScalar::PosInt(n)) => if *n <= 9223372036854775807u64 {
            *n as i64
        } else {
            0
        },
        Some(JsonScalar::NegInt(n)) => *n,
        _ => 0,
    }
}

/// A value as text: a string as it is, anything else as its JSON text
/// (`value.as_str()`, else `value.to_string()`).
pub open spec fn value_text(v: JsonScalar) -> Seq<char> {
    match v {
        JsonScalar::Text(s) => s@,
        JsonScalar::Null => "null"@,
        JsonScalar::Bool(b) => if b {
            "true"@
        } else {
            "false"@
        },
        JsonScalar::PosInt(n) => decimal(n as nat),
        JsonScalar::NegInt(n) => decimal_int(n as int),
        JsonScalar::Float(t) => t@,
        JsonScalar::Compound(t) => t@,
    }
}

/// A value as text (executable form of `value_text`).
pub fn value_text_of(v: &JsonScalar) -> (r: String)
    ensures
        r@ == value_text(*v),
{
    match v {
        JsonScalar::Text(s) => s.clone(),
        JsonScalar::Null => "null".to_owned(),
        JsonScalar::Bool(b) => if *b {
            "true".to_owned()
        } else {
            "false".to_owned()
        },
        JsonScalar::PosInt(n) => u64_to_decimal(*n),
        JsonScalar::NegInt(n) => i64_to_decimal(*n),
        JsonScalar::Float(t) => t.clone(),
        JsonScalar::Compound(t) => t.clone(),
    }
}

/// The strings of one column over the rows, in order: rows whose value there
/// is not a string are passed over.
pub open spec fn column_texts(rows: Seq<JsonRow>, key: Seq<char>) -> Seq<Seq<char>>
    decreases rows.len(),
{
    if rows.len() == 0 {
        Seq::empty()
    } else {
        let rest = column_texts(rows.drop_last(), key);
        match field_value(rows.last().fields@, key) {
            JsonScalar::Text(s) => rest.push(s@),
            _ => rest,
        }
    }
}

/// The texts of a column are exactly the string values of that column, row
/// by row in order: a row whose value there is not a string is passed over.
pub proof fn lemma_column_texts_are_strings(rows: Seq<JsonRow>, key: Seq<char>)
    ensures
        column_texts(rows, key) == rows.filter(
            |r: JsonRow| field_value(r.fields@, key) is Text,
        ).map_values(|r: JsonRow| field_value(r.fields@, key)->Text_0@),
    decreases rows.len(),
{
    reveal(Seq::filter);
    let ok = |r: JsonRow| field_value(r.fields@, key) is Text;
    let un = |r: JsonRow| field_value(r.fields@, key)->Text_0@;
    if rows.len() == 0 {
        assert(rows.filter(ok) =~= Seq::<JsonRow>::empty());
        assert(rows.filter(ok).map_values(un) =~= Seq::<Seq<char>>::empty());
    } else {
        let p = rows.drop_last();
        lemma_column_texts_are_strings(p, key);
        let x = rows.last();
        let fp = p.filter(ok);
        if ok(x) {
            assert(rows.filter(ok) == fp.push(x));
            assert(fp.push(x).map_values(un) =~= fp.map_values(un).push(un(x)));
        } else {
            assert(rows.filter(ok) == fp);
        }
    }
}

/// The strings of one column over the rows (such as the `name` column of a
/// table's column listing).
pub fn text_values(rows: &Vec<JsonRow>, key: &str) -> (r: Vec<String>)
    ensures
        r.deep_view() == column_texts(rows@, key@),
{
    let mut r: Vec<String> = Vec::new();
    let mut i: usize = 0;
    assert(r.deep_view() =~= column_texts(rows@.take(0), key@));
    while i < rows.len()
        invariant
            i <= rows@.len(),
            r.deep_view() == column_texts(rows@.take(i as int), key@),
        decreases rows@.len() - i,
    {
        assert(rows@.take(i as int + 1).drop_last() =~= rows@.take(i as int));
        assert(rows@.take(i as int + 1).last() == rows@[i as int]);
        match find_field(&rows[i], key) {
            Some(JsonScalar::Text(s)) => {
                let ghost before = r.deep_view();
                let t = s.as_str().to_owned();
                r.push(t);
                assert(r.deep_view() =~= before.push(s@));
            },
            _ => {},
        }
        i = i + 1;
    }
    assert(rows@.take(rows@.len() as int) =~= rows@);
    r
}

/// The `cnt` of the first row, 0 where there is none.
pub open spec fn first_count(rows: Seq<JsonRow>) -> u64 {
    if rows.len() == 0 {
        0
    } else {
        row_u64(rows[0], "cnt"@)
    }
}

/// The `cnt` of the first row of a counting query, 0 where there is none.
pub fn count_of(rows: &Vec<JsonRow>) -> (r: u64)
    ensures
        r == first_count(rows@),
{
    if rows.len() == 0 {
        0
    } else {
        field_u64(&rows[0], "cnt")
    }
}

// ---------------------------------------------------------------------------
// Statistics
// ---------------------------------------------------------------------------

/// Counts all datasets.
pub const COUNT_DATASETS_SQL: &'static str = "SELECT COUNT(*) AS cnt FROM oe_datasets";

/// Counts the tables loaded from resources.
pub const COUNT_TABLES_SQL: &'static str =
    "SELECT COUNT(*) AS cnt FROM oe_resources WHERE table_name IS NOT NULL AND download_status = 'loaded'";

/// Sums the rows of loaded resources.
pub const SUM_ROWS_SQL: &'static str =
    "SELECT COALESCE(SUM(row_count), 0) AS cnt FROM oe_resources WHERE download_status = 'loaded'";

/// Counts all resources.
pub const COUNT_RESOURCES_SQL: &'static str = "SELECT COUNT(*) AS cnt FROM oe_resources";

/// Counts loaded resources.
pub const COUNT_LOADED_SQL: &'static str =
    "SELECT COUNT(*) AS cnt FROM oe_resources WHERE download_status = 'loaded'";

/// Counts pending resources.
pub const COUNT_PENDING_SQL: &'static str =
    "SELECT COUNT(*) AS cnt FROM oe_resources WHERE download_status = 'pending'";

/// Counts failed resources.
pub const COUNT_FAILED_SQL: &'static str =
    "SELECT COUNT(*) AS cnt FROM oe_resources WHERE download_status = 'error'";

/// The ten most used categories.
pub const POPULAR_CATEGORIES_SQL: &'static str =
    "SELECT j.value AS name, COUNT(*) AS count FROM oe_datasets d, json_each(d.categories) j GROUP BY j.value ORDER BY count DESC LIMIT 10";

/// The ten most recently ingested datasets.
pub const RECENT_DATASETS_SQL: &'static str =
    "SELECT id, title, COALESCE(organization, '') AS organization, COALESCE(ingested_at, '') AS ingested_at FROM oe_datasets ORDER BY ingested_at DESC LIMIT 10";

/// The fifty most recent answers that came with a chart.
pub const SAVED_CHARTS_SQL: &'static str =
    "SELECT id, session_id, content, COALESCE(sql_query, '') AS sql_query, chart_spec, COALESCE(created_at, '') AS created_at FROM oe_chat_messages WHERE chart_spec IS NOT NULL AND chart_spec != '' AND chart_spec != '{}' ORDER BY created_at DESC LIMIT 50";

/// The overview figures from the rows of the four counting queries
/// (datasets, tables, rows, resources).
pub fn overview_stats(
    datasets: &Vec<JsonRow>,
    tables: &Vec<JsonRow>,
    rows: &Vec<JsonRow>,
    resources: &Vec<JsonRow>,
) -> (r: OverviewStats)
    ensures
        r.total_datasets == first_count(datasets@),
        r.total_tables == first_count(tables@),
        r.total_rows == first_count(rows@),
        r.total_resources == first_count(resources@),
{
    OverviewStats {
        total_datasets: count_of(datasets),
        total_tables: count_of(tables),
        total_rows: count_of(rows),
        total_resources: count_of(resources),
    }
}

/// Ingestion progress for the settings page.
#[derive(Debug, Clone)]
pub struct IngestionStatus {
    pub total_datasets: u64,
    pub loaded_resources: u64,
    pub pending_resources: u64,
    pub error_resources: u64,
}

/// The ingestion progress from the rows of the four counting queries
/// (datasets, loaded, pending, failed).
pub fn ingestion_status(
    datasets: &Vec<JsonRow>,
    loaded: &Vec<JsonRow>,
    pending: &Vec<JsonRow>,
    failed: &Vec<JsonRow>,
) -> (r: IngestionStatus)
    ensures
        r.total_datasets == first_count(datasets@),
        r.loaded_resources == first_count(loaded@),
        r.pending_resources == first_count(pending@),
        r.error_resources == first_count(failed@),
{
    IngestionStatus {
        total_datasets: count_of(datasets),
        loaded_resources: count_of(loaded),
        pending_resources: count_of(pending),
        error_resources: count_of(failed),
    }
}

/// The popular categories from their rows.
pub fn popular_categories(rows: &Vec<JsonRow>) -> (r: Vec<CategoryCount>)
    ensures
        r@.len() == rows@.len(),
        forall|i: int|
            0 <= i < rows@.len() ==> (#[trigger] r@[i]).name@ == row_text(rows@[i], "name"@)
                && r@[i].count == row_u64(rows@[i], "count"@),
{
    let mut r: Vec<CategoryCount> = Vec::new();
    let mut i: usize = 0;
    while i < rows.len()
        invariant
            i <= rows@.len(),
            r@.len() == i,
            forall|k: int|
                0 <= k < i ==> (#[trigger] r@[k]).name@ == row_text(rows@[k], "name"@)
                    && r@[k].count == row_u64(rows@[k], "count"@),
        decreases rows@.len() - i,
    {
        r.push(
            CategoryCount { name: field_text(&rows[i], "name"), count: field_u64(&rows[i], "count") },
        );
        i = i + 1;
    }
    r
}

/// A recently ingested dataset.
#[derive(Debug, Clone)]
pub struct RecentDataset {
    pub id: String,
    pub title: String,
    pub organization: String,
    pub ingested_at: String,
}

/// The recent datasets from their rows.
pub fn recent_datasets(rows: &Vec<JsonRow>) -> (r: Vec<RecentDataset>)
    ensures
        r@.len() == rows@.len(),
        forall|i: int|
            0 <= i < rows@.len() ==> {
                &&& (#[trigger] r@[i]).id@ == row_text(rows@[i], "id"@)
                &&& r@[i].title@ == row_text(rows@[i], "title"@)
                &&& r@[i].organization@ == row_text(rows@[i], "organization"@)
                &&& r@[i].ingested_at@ == row_text(rows@[i], "ingested_at"@)
            },
{
    let mut r: Vec<RecentDataset> = Vec::new();
    let mut i: usize = 0;
    while i < rows.len()
        invariant
            i <= rows@.len(),
            r@.len() == i,
            forall|k: int|
                0 <= k < i ==> {
                    &&& (#[trigger] r@[k]).id@ == row_text(rows@[k], "id"@)
                    &&& r@[k].title@ == row_text(rows@[k], "title"@)
                    &&& r@[k].organization@ == row_text(rows@[k], "organization"@)
                    &&& r@[k].ingested_at@ == row_text(rows@[k], "ingested_at"@)
                },
        decreases rows@.len() - i,
    {
        let row = &rows[i];
        r.push(
            RecentDataset {
                id: field_text(row, "id"),
                title: field_text(row, "title"),
                organization: field_text(row, "organization"),
                ingested_at: field_text(row, "ingested_at"),
            },
        );
        i = i + 1;
    }
    r
}

/// An answer with a chart, shown on the analytics page.
#[derive(Debug, Clone)]
pub struct SavedChart {
    pub id: i64,
    pub session_id: String,
    pub content: String,
    pub sql_query: String,
    pub chart_spec: String,
    pub created_at: String,
}

/// The saved charts from their rows.
pub fn saved_charts(rows: &Vec<JsonRow>) -> (r: Vec<SavedChart>)
    ensures
        r@.len() == rows@.len(),
        forall|i: int|
            0 <= i < rows@.len() ==> {
                &&& (#[trigger] r@[i]).id == row_i64(rows@[i], "id"@)
                &&& r@[i].session_id@ == row_text(rows@[i], "session_id"@)
                &&& r@[i].content@ == row_text(rows@[i], "content"@)
                &&& r@[i].sql_query@ == row_text(rows@[i], "sql_query"@)
                &&& r@[i].chart_spec@ == row_text(rows@[i], "chart_spec"@)
                &&& r@[i].created_at@ == row_text(rows@[i], "created_at"@)
            },
{
    let mut r: Vec<SavedChart> = Vec::new();
    let mut i: usize = 0;
    while i < rows.len()
        invariant
            i <= rows@.len(),
            r@.len() == i,
            forall|k: int|
                0 <= k < i ==> {
                    &&& (#[trigger] r@[k]).id == row_i64(rows@[k], "id"@)
                    &&& r@[k].session_id@ == row_text(rows@[k], "session_id"@)
                    &&& r@[k].content@ == row_text(rows@[k], "content"@)
                    &&& r@[k].sql_query@ == row_text(rows@[k], "sql_query"@)
                    &&& r@[k].chart_spec@ == row_text(rows@[k], "chart_spec"@)
                    &&& r@[k].created_at@ == row_text(rows@[k], "created_at"@)
                },
        decreases rows@.len() - i,
    {
        let row = &rows[i];
        r.push(
            SavedChart {
                id: field_i64(row, "id"),
                session_id: field_text(row, "session_id"),
                content: field_text(row, "content"),
                sql_query: field_text(row, "sql_query"),
                chart_spec: field_text(row, "chart_spec"),
                created_at: field_text(row, "created_at"),
            },
        );
        i = i + 1;
    }
    r
}

// ---------------------------------------------------------------------------
// Chat history
// ---------------------------------------------------------------------------

/// One message of a chat session's history.
#[derive(Debug, Clone)]
pub struct ChatHistoryMessage {
    pub id: i64,
    pub role: String,
    pub content: String,
    pub sql_query: String,
    pub chart_spec: String,
}

/// The query for a chat session's messages, oldest first.
pub fn chat_history_sql(session_id: &str) -> (r: String)
    ensures
        r@ == "SELECT id, role, content, COALESCE(sql_query, '') AS sql_query, COALESCE(chart_spec, '') AS chart_spec FROM oe_chat_messages WHERE session_id = '"@
            + sql_escape(session_id@) + "' ORDER BY created_at ASC"@,
{
    let mut r = concat2(
        "SELECT id, role, content, COALESCE(sql_query, '') AS sql_query, COALESCE(chart_spec, '') AS chart_spec FROM oe_chat_messages WHERE session_id = '",
        escape_sql(session_id).as_str(),
    );
    r.append("' ORDER BY created_at ASC");
    r
}

/// A session's messages from their rows.
pub fn chat_history(rows: &Vec<JsonRow>) -> (r: Vec<ChatHistoryMessage>)
    ensures
        r@.len() == rows@.len(),
        forall|i: int|
            0 <= i < rows@.len() ==> {
                &&& (#[trigger] r@[i]).id == row_i64(rows@[i], "id"@)
                &&& r@[i].role@ == row_text(rows@[i], "role"@)
                &&& r@[i].content@ == row_text(rows@[i], "content"@)
                &&& r@[i].sql_query@ == row_text(rows@[i], "sql_query"@)
                &&& r@[i].chart_spec@ == row_text(rows@[i], "chart_spec"@)
            },
{
    let mut r: Vec<ChatHistoryMessage> = Vec::new();
    let mut i: usize = 0;
    while i < rows.len()
        invariant
            i <= rows@.len(),
            r@.len() == i,
            forall|k: int|
                0 <= k < i ==> {
                    &&& (#[trigger] r@[k]).id == row_i64(rows@[k], "id"@)
                    &&& r@[k].role@ == row_text(rows@[k], "role"@)
                    &&& r@[k].content@ == row_text(rows@[k], "content"@)
                    &&& r@[k].sql_query@ == row_text(rows@[k], "sql_query"@)
                    &&& r@[k].chart_spec@ == row_text(rows@[k], "chart_spec"@)
                },
        decreases rows@.len() - i,
    {
        let row = &rows[i];
        r.push(
            ChatHistoryMessage {
                id: field_i64(row, "id"),
                role: field_text(row, "role"),
                content: field_text(row, "content"),
                sql_query: field_text(row, "sql_query"),
                chart_spec: field_text(row, "chart_spec"),
            },
        );
        i = i + 1;
    }
    r
}

// ---------------------------------------------------------------------------
// Catalogue
// ---------------------------------------------------------------------------

/// A dataset as listed in the catalogue.
#[derive(Debug, Clone)]
pub struct DatasetSummary {
    pub id: String,
    pub title: String,
    pub description: String,
    pub organization: String,
    pub license: String,
    pub tags: Vec<String>,
    pub resource_count: u64,
}

/// One page of catalogue search results and the total number of matches.
#[derive(Debug, Clone)]
pub struct DatasetSearchResult {
    pub datasets: Vec<DatasetSummary>,
    pub total: u64,
}

/// The columns a catalogue listing selects.
pub const SEARCH_COLUMNS: &'static str = "SELECT d.id, d.title, COALESCE(d.description, '') AS description, COALESCE(d.organization, '') AS organization, COALESCE(d.license, '') AS license, CAST(d.tags AS VARCHAR) AS tags_str, (SELECT COUNT(*) FROM oe_resources r WHERE r.dataset_id = d.id) AS resource_count FROM oe_datasets d";

/// The filter of a catalogue search: the escaped query found,
/// case-insensitively, in the title, description or organization.
pub open spec fn search_filter(query: Seq<char>) -> Seq<char> {
    let q = sql_escape(query);
    "WHERE d.title ILIKE '%"@ + q + "%' OR d.description ILIKE '%"@ + q
        + "%' OR d.organization ILIKE '%"@ + q + "%'"@
}

/// The counting query of a catalogue search.
pub open spec fn search_count_sql(query: Seq<char>) -> Seq<char> {
    if query.len() == 0 {
        "SELECT COUNT(*) AS cnt FROM oe_datasets"@
    } else {
        "SELECT COUNT(*) AS cnt FROM oe_datasets d "@ + search_filter(query)
    }
}

/// The listing query of a catalogue search, newest first.
pub open spec fn search_page_sql(query: Seq<char>, offset: u64, limit: u64) -> Seq<char> {
    SEARCH_COLUMNS@ + (if query.len() == 0 {
        Seq::empty()
    } else {
        " "@ + search_filter(query)
    }) + " ORDER BY d.ingested_at DESC LIMIT "@ + decimal(limit as nat) + " OFFSET "@ + decimal(
        offset as nat,
    )
}

fn search_filter_text(query: &str) -> (r: String)
    ensures
        r@ == search_filter(query@),
{
    let q = escape_sql(query);
    let mut r = concat2("WHERE d.title ILIKE '%", q.as_str());
    r.append("%' OR d.description ILIKE '%");
    r.append(q.as_str());
    r.append("%' OR d.organization ILIKE '%");
    r.append(q.as_str());
    r.append("%'");
    r
}

/// The counting and listing queries of a catalogue search.
pub fn search_queries(query: &str, offset: u64, limit: u64) -> (r: (String, String))
    ensures
        r.0@ == search_count_sql(query@),
        r.1@ == search_page_sql(query@, offset, limit),
{
    let mut data = SEARCH_COLUMNS.to_owned();
    let count;
    if query.is_empty() {
        count = "SELECT COUNT(*) AS cnt FROM oe_datasets".to_owned();
    } else {
        let filter = search_filter_text(query);
        count = concat2("SELECT COUNT(*) AS cnt FROM oe_datasets d ", filter.as_str());
        data.append(" ");
        data.append(filter.as_str());
    }
    data.append(" ORDER BY d.ingested_at DESC LIMIT ");
    data.append(u64_to_decimal(limit).as_str());
    data.append(" OFFSET ");
    data.append(u64_to_decimal(offset).as_str());
    proof {
        if query@.len() == 0 {
            assert(SEARCH_COLUMNS@ + Seq::<char>::empty() =~= SEARCH_COLUMNS@);
        }
    }
    (count, data)
}

/// How a listing row reads as a dataset summary.
pub open spec fn summary_of_row(s: DatasetSummary, row: JsonRow) -> bool {
    &&& s.id@ == row_text(row, "id"@)
    &&& s.title@ == row_text(row, "title"@)
    &&& s.description@ == row_text(row, "description"@)
    &&& s.organization@ == row_text(row, "organization"@)
    &&& s.license@ == row_text(row, "license"@)
    &&& s.tags.deep_view() == bracket_list_items(row_text(row, "tags_str"@))
    &&& s.resource_count == row_u64(row, "resource_count"@)
}

/// The search results from the rows of the counting and listing queries.
pub fn search_result(count_rows: &Vec<JsonRow>, rows: &Vec<JsonRow>) -> (r: DatasetSearchResult)
    ensures
        r.total == first_count(count_rows@),
        r.datasets@.len() == rows@.len(),
        forall|i: int| 0 <= i < rows@.len() ==> summary_of_row(#[trigger] r.datasets@[i], rows@[i]),
{
    let total = count_of(count_rows);
    let mut datasets: Vec<DatasetSummary> = Vec::new();
    let mut i: usize = 0;
    while i < rows.len()
        invariant
            i <= rows@.len(),
            datasets@.len() == i,
            forall|k: int| 0 <= k < i ==> summary_of_row(#[trigger] datasets@[k], rows@[k]),
        decreases rows@.len() - i,
    {
        let row = &rows[i];
        let tags_str = field_text(row, "tags_str");
        datasets.push(
            DatasetSummary {
                id: field_text(row, "id"),
                title: field_text(row, "title"),
                description: field_text(row, "description"),
                organization: field_text(row, "organization"),
                license: field_text(row, "license"),
                tags: parse_array_str(tags_str.as_str()),
                resource_count: field_u64(row, "resource_count"),
            },
        );
        i = i + 1;
    }
    DatasetSearchResult { datasets, total }
}

/// A resource of a dataset, as shown on its detail page.
#[derive(Debug, Clone)]
pub struct ResourceInfo {
    pub id: String,
    pub name: String,
    pub format: String,
    pub table_name: String,
    pub row_count: i64,
    pub download_status: String,
}

/// A dataset with its resources, as shown on its detail page.
#[derive(Debug, Clone)]
pub struct DatasetDetail {
    pub id: String,
    pub title: String,
    pub description: String,
    pub organization: String,
    pub license: String,
    pub categories: Vec<String>,
    pub tags: Vec<String>,
    pub ckan_url: String,
    pub created_at: String,
    pub modified_at: String,
    pub resources: Vec<ResourceInfo>,
}

/// The query for one dataset's row.
pub fn dataset_detail_sql(dataset_id: &str) -> (r: String)
    ensures
        r@ == "SELECT id, title, COALESCE(description, '') AS description, COALESCE(organization, '') AS organization, COALESCE(license, '') AS license, CAST(categories AS VARCHAR) AS categories_str, CAST(tags AS VARCHAR) AS tags_str, COALESCE(ckan_url, '') AS ckan_url, COALESCE(CAST(created_at AS VARCHAR), '') AS created_at, COALESCE(CAST(modified_at AS VARCHAR), '') AS modified_at FROM oe_datasets WHERE id = '"@
            + sql_escape(dataset_id@) + "'"@,
{
    let mut r = concat2(
        "SELECT id, title, COALESCE(description, '') AS description, COALESCE(organization, '') AS organization, COALESCE(license, '') AS license, CAST(categories AS VARCHAR) AS categories_str, CAST(tags AS VARCHAR) AS tags_str, COALESCE(ckan_url, '') AS ckan_url, COALESCE(CAST(created_at AS VARCHAR), '') AS created_at, COALESCE(CAST(modified_at AS VARCHAR), '') AS modified_at FROM oe_datasets WHERE id = '",
        escape_sql(dataset_id).as_str(),
    );
    r.append("'");
    r
}

/// The query for one dataset's resources.
pub fn dataset_resources_sql(dataset_id: &str) -> (r: String)
    ensures
        r@ == "SELECT id, COALESCE(name, '') AS name, COALESCE(format, '') AS format, COALESCE(table_name, '') AS table_name, COALESCE(row_count, 0) AS row_count, download_status FROM oe_resources WHERE dataset_id = '"@
            + sql_escape(dataset_id@) + "'"@,
{
    let mut r = concat2(
        "SELECT id, COALESCE(name, '') AS name, COALESCE(format, '') AS format, COALESCE(table_name, '') AS table_name, COALESCE(row_count, 0) AS row_count, download_status FROM oe_resources WHERE dataset_id = '",
        escape_sql(dataset_id).as_str(),
    );
    r.append("'");
    r
}

/// How a resource row reads as resource info.
pub open spec fn resource_of_row(r: ResourceInfo, row: JsonRow) -> bool {
    &&& r.id@ == row_text(row, "id"@)
    &&& r.name@ == row_text(row, "name"@)
    &&& r.format@ == row_text(row, "format"@)
    &&& r.table_name@ == row_text(row, "table_name"@)
    &&& r.row_count == row_i64(row, "row_count"@)
    &&& r.download_status@ == row_text(row, "download_status"@)
}

/// A dataset's detail from its first row and its resources' rows; a dataset
/// without a row is not found.
pub fn dataset_detail(rows: &Vec<JsonRow>, resource_rows: &Vec<JsonRow>) -> (r: Result<
    DatasetDetail,
    String,
>)
    ensures
        rows@.len() == 0 ==> (r matches Err(m) && m@ == "Dataset not found"@),
        rows@.len() > 0 ==> {
            let row = rows@[0];
            &&& r matches Ok(d)
            &&& r->Ok_0.id@ == row_text(row, "id"@)
            &&& r->Ok_0.title@ == row_text(row, "title"@)
            &&& r->Ok_0.description@ == row_text(row, "description"@)
            &&& r->Ok_0.organization@ == row_text(row, "organization"@)
            &&& r->Ok_0.license@ == row_text(row, "license"@)
            &&& r->Ok_0.categories.deep_view() == bracket_list_items(row_text(row, "categories_str"@))
            &&& r->Ok_0.tags.deep_view() == bracket_list_items(row_text(row, "tags_str"@))
            &&& r->Ok_0.ckan_url@ == row_text(row, "ckan_url"@)
            &&& r->Ok_0.created_at@ == row_text(row, "created_at"@)
            &&& r->Ok_0.modified_at@ == row_text(row, "modified_at"@)
            &&& r->Ok_0.resources@.len() == resource_rows@.len()
            &&& forall|i: int|
                0 <= i < resource_rows@.len() ==> resource_of_row(
                    #[trigger] r->Ok_0.resources@[i],
                    resource_rows@[i],
                )
        },
{
    if rows.len() == 0 {
        return Err("Dataset not found".to_owned());
    }
    let row = &rows[0];
    let categories = parse_array_str(field_text(row, "categories_str").as_str());
    let tags = parse_array_str(field_text(row, "tags_str").as_str());
    let mut resources: Vec<ResourceInfo> = Vec::new();
    let mut i: usize = 0;
    while i < resource_rows.len()
        invariant
            i <= resource_rows@.len(),
            resources@.len() == i,
            forall|k: int| 0 <= k < i ==> resource_of_row(#[trigger] resources@[k], resource_rows@[k]),
        decreases resource_rows@.len() - i,
    {
        let rr = &resource_rows[i];
        resources.push(
            ResourceInfo {
                id: field_text(rr, "id"),
                name: field_text(rr, "name"),
                format: field_text(rr, "format"),
                table_name: field_text(rr, "table_name"),
                row_count: field_i64(rr, "row_count"),
                download_status: field_text(rr, "download_status"),
            },
        );
        i = i + 1;
    }
    Ok(
        DatasetDetail {
            id: field_text(row, "id"),
            title: field_text(row, "title"),
            description: field_text(row, "description"),
            organization: field_text(row, "organization"),
            license: field_text(row, "license"),
            categories,
            tags,
            ckan_url: field_text(row, "ckan_url"),
            created_at: field_text(row, "created_at"),
            modified_at: field_text(row, "modified_at"),
            resources,
        },
    )
}

/// Whether a table may be previewed (executable form).
pub fn table_preview_allowed(table_name: &str) -> (b: bool)
    ensures
        b == preview_table_allowed(table_name@),
{
    starts_with(table_name, "data_") && !contains_char(table_name, ';') && !contains_char(
        table_name,
        '\'',
    )
}

/// The query for the first twenty rows of a loaded table; a name that is not
/// a loaded table's (not starting with `data_`, or holding `;` or `'`) is
/// refused.
pub fn table_preview_sql(table_name: &str) -> (r: Result<String, String>)
    ensures
        preview_table_allowed(table_name@) ==> (r matches Ok(s) && s@ == "SELECT * FROM "@
            + table_name@ + " LIMIT 20"@),
        !preview_table_allowed(table_name@) ==> (r matches Err(m) && m@ == "Invalid table name"@),
{
    if !table_preview_allowed(table_name) {
        return Err("Invalid table name".to_owned());
    }
    let mut s = concat2("SELECT * FROM ", table_name);
    s.append(" LIMIT 20");
    Ok(s)
}

// ---------------------------------------------------------------------------
// Chat panel
// ---------------------------------------------------------------------------

/// A message shown in the chat panel.
#[derive(Debug, Clone)]
pub struct MessageEntry {
    pub role: String,
    pub content: String,
    pub sql: String,
    pub chart_spec: String,
}

/// Opening of the apology shown when answering fails.
pub const APOLOGY: &'static str = "Es tut mir leid, bei der Verarbeitung Ihrer Anfrage ist ein Fehler aufgetreten. Bitte versuchen Sie es mit einer anderen Formulierung.\n\nTechnische Details: ";

/// The assistant's message for the outcome of a question: the answer's
/// summary, query and chart option; or an apology naming the error.
pub fn assistant_entry(outcome: Result<(String, String, String), String>) -> (r: MessageEntry)
    ensures
        r.role@ == "assistant"@,
        match outcome {
            Ok((summary, sql, chart)) => r.content == summary && r.sql == sql && r.chart_spec
                == chart,
            Err(e) => r.content@ == APOLOGY@ + e@ && r.sql@.len() == 0 && r.chart_spec@.len() == 0,
        },
{
    match outcome {
        Ok((summary, sql, chart)) => MessageEntry {
            role: "assistant".to_owned(),
            content: summary,
            sql,
            chart_spec: chart,
        },
        Err(e) => MessageEntry {
            role: "assistant".to_owned(),
            content: concat2(APOLOGY, e.as_str()),
            sql: String::new(),
            chart_spec: String::new(),
        },
    }
}

} // verus!
