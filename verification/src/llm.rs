//! What the assistant says to the language model: the three prompts of a
//! question (table selection, SQL generation, summary), the request target,
//! and how the model's reply text is read.
use vstd::prelude::*;
use vstd::string::*;

use crate::errors::OpenEyesError;
use crate::models::{ColumnSchema, TableInfo};
use crate::text::{
    concat2, decimal, decimal_int, has_prefix, has_suffix, i64_to_decimal, join_step, join_with,
    lemma_trim_set_bounds, starts_with, ends_with, str_equal, trim_set, trim_str, trim_ws,
    trim_end_set, trim_start_set, in_trim_set, u64_to_decimal, TrimSet, occurs_in,
    lemma_occurs_in_context, lemma_join_items_occur, lemma_join_push,
};

verus! {

/// A system instruction and a user message for one model call.
pub struct Prompt {
    pub system: String,
    pub user: String,
}

// ---------------------------------------------------------------------------
// Phase 1: table selection
// ---------------------------------------------------------------------------

/// Opening of the table-selection instruction, up to the language.
pub const SELECT_TABLES_HEAD: &'static str = "You are a data analyst assistant. Given a user question and a list of available data tables, select the 3-5 most relevant tables.\nRespond ONLY with valid JSON: {\"tables\": [\"table_name1\", \"table_name2\", ...]}\nThe user's UI language is ";

/// Closing of the table-selection instruction, after the language.
pub const SELECT_TABLES_TAIL: &'static str = ", but always use the exact table names as listed.";

/// One line of the table catalogue shown to the model.
pub open spec fn table_line(t: TableInfo) -> Seq<char> {
    "- "@ + t.table_name@ + ": "@ + t.dataset_title@ + " ("@ + decimal_int(t.row_count as int)
        + "rows, columns: "@ + join_with(t.column_names.deep_view(), ", "@) + ")"@
}

/// The table catalogue: one line per table.
pub open spec fn table_catalogue(tables: Seq<TableInfo>) -> Seq<char> {
    join_with(tables.map_values(|t: TableInfo| table_line(t)), "\n"@)
}

/// The table-selection prompt for a question.
pub open spec fn table_selection_prompt(question: Seq<char>, tables: Seq<TableInfo>, language: Seq<char>) -> (
    Seq<char>,
    Seq<char>,
) {
    (
        SELECT_TABLES_HEAD@ + language + SELECT_TABLES_TAIL@,
        "Question: "@ + question + "\n\nAvailable tables:\n"@ + table_catalogue(tables),
    )
}

fn table_line_text(t: &TableInfo) -> (r: String)
    ensures
        r@ == table_line(*t),
{
    let mut cols = String::new();
    let mut i: usize = 0;
    assert(t.column_names.deep_view().subrange(0, 0) =~= Seq::<Seq<char>>::empty());
    while i < t.column_names.len()
        invariant
            i <= t.column_names@.len(),
            cols@ == join_with(t.column_names.deep_view().subrange(0, i as int), ", "@),
        decreases t.column_names@.len() - i,
    {
        let ghost before = t.column_names.deep_view().subrange(0, i as int);
        join_step(&mut cols, i == 0, ", ", t.column_names[i].as_str(), Ghost(before));
        assert(before.push(t.column_names[i as int]@) =~= t.column_names.deep_view().subrange(
            0,
            i as int + 1,
        ));
        i = i + 1;
    }
    assert(t.column_names.deep_view().subrange(0, t.column_names@.len() as int)
        =~= t.column_names.deep_view());
    let mut r = concat2("- ", t.table_name.as_str());
    r.append(": ");
    r.append(t.dataset_title.as_str());
    r.append(" (");
    r.append(i64_to_decimal(t.row_count).as_str());
    r.append("rows, columns: ");
    r.append(cols.as_str());
    r.append(")");
    r
}

/// The table catalogue shown to the model.
pub fn table_catalogue_text(tables: &[TableInfo]) -> (r: String)
    ensures
        r@ == table_catalogue(tables@),
{
    let ghost lines = tables@.map_values(|t: TableInfo| table_line(t));
    let mut r = String::new();
    let mut i: usize = 0;
    assert(lines.subrange(0, 0) =~= Seq::<Seq<char>>::empty());
    while i < tables.len()
        invariant
            i <= tables@.len(),
            lines == tables@.map_values(|t: TableInfo| table_line(t)),
            r@ == join_with(lines.subrange(0, i as int), "\n"@),
        decreases tables@.len() - i,
    {
        let line = table_line_text(&tables[i]);
        let ghost before = lines.subrange(0, i as int);
        join_step(&mut r, i == 0, "\n", line.as_str(), Ghost(before));
        assert(before.push(line@) =~= lines.subrange(0, i as int + 1));
        i = i + 1;
    }
    assert(lines.subrange(0, tables@.len() as int) =~= lines);
    r
}

/// The prompt that asks the model to pick the tables relevant to a question.
pub fn select_tables_prompt(question: &str, tables: &[TableInfo], language: &str) -> (r: Prompt)
    ensures
        (r.system@, r.user@) == table_selection_prompt(question@, tables@, language@),
{
    let mut system = concat2(SELECT_TABLES_HEAD, language);
    system.append(SELECT_TABLES_TAIL);
    let mut user = concat2("Question: ", question);
    user.append("\n\nAvailable tables:\n");
    user.append(table_catalogue_text(tables).as_str());
    Prompt { system, user }
}

// ---------------------------------------------------------------------------
// Phase 2: SQL generation
// ---------------------------------------------------------------------------

/// Opening of the SQL-generation instruction, up to the language.
pub const GENERATE_SQL_HEAD: &'static str = "You are a DuckDB SQL expert. Generate a read-only SELECT query to answer the user's question.\nRules:\n- Only SELECT statements (no INSERT, UPDATE, DELETE, DROP, CREATE)\n- Always add LIMIT 1000\n- Use ILIKE for text matching (German text is common)\n- Use DuckDB-compatible syntax\n- The user's UI language is ";

/// Closing of the SQL-generation instruction, after the language.
pub const GENERATE_SQL_TAIL: &'static str = "\nRespond ONLY with valid JSON: {\"sql\": \"SELECT ...\"}";

/// One column line of a table's schema: two spaces, name, type.
pub open spec fn column_line(c: ColumnSchema) -> Seq<char> {
    "  "@ + c.name@ + " "@ + c.data_type@
}

/// A table's schema as shown to the model.
pub open spec fn schema_block(name: Seq<char>, cols: Seq<ColumnSchema>) -> Seq<char> {
    "TABLE "@ + name + ":\n"@ + join_with(cols.map_values(|c: ColumnSchema| column_line(c)), ",\n"@)
}

/// The schemas of all tables, separated by blank lines.
pub open spec fn schema_text(schemas: Seq<(String, Vec<ColumnSchema>)>) -> Seq<char> {
    join_with(
        schemas.map_values(|s: (String, Vec<ColumnSchema>)| schema_block(s.0@, s.1@)),
        "\n\n"@,
    )
}

/// The SQL-generation prompt for a question.
pub open spec fn sql_generation_prompt(
    question: Seq<char>,
    schemas: Seq<(String, Vec<ColumnSchema>)>,
    language: Seq<char>,
) -> (Seq<char>, Seq<char>) {
    (
        GENERATE_SQL_HEAD@ + language + GENERATE_SQL_TAIL@,
        "Question: "@ + question + "\n\nTable schemas:\n"@ + schema_text(schemas),
    )
}

fn schema_block_text(name: &str, cols: &Vec<ColumnSchema>) -> (r: String)
    ensures
        r@ == schema_block(name@, cols@),
{
    let ghost lines = cols@.map_values(|c: ColumnSchema| column_line(c));
    let mut body = String::new();
    let mut i: usize = 0;
    assert(lines.subrange(0, 0) =~= Seq::<Seq<char>>::empty());
    while i < cols.len()
        invariant
            i <= cols@.len(),
            lines == cols@.map_values(|c: ColumnSchema| column_line(c)),
            body@ == join_with(lines.subrange(0, i as int), ",\n"@),
        decreases cols@.len() - i,
    {
        let mut line = concat2("  ", cols[i].name.as_str());
        line.append(" ");
        line.append(cols[i].data_type.as_str());
        let ghost before = lines.subrange(0, i as int);
        join_step(&mut body, i == 0, ",\n", line.as_str(), Ghost(before));
        assert(before.push(line@) =~= lines.subrange(0, i as int + 1));
        i = i + 1;
    }
    assert(lines.subrange(0, cols@.len() as int) =~= lines);
    let mut r = concat2("TABLE ", name);
    r.append(":\n");
    r.append(body.as_str());
    r
}

/// The schemas shown to the model.
pub fn schema_text_of(schemas: &[(String, Vec<ColumnSchema>)]) -> (r: String)
    ensures
        r@ == schema_text(schemas@),
{
    let ghost blocks = schemas@.map_values(
        |s: (String, Vec<ColumnSchema>)| schema_block(s.0@, s.1@),
    );
    let mut r = String::new();
    let mut i: usize = 0;
    assert(blocks.subrange(0, 0) =~= Seq::<Seq<char>>::empty());
    while i < schemas.len()
        invariant
            i <= schemas@.len(),
            blocks == schemas@.map_values(
                |s: (String, Vec<ColumnSchema>)| schema_block(s.0@, s.1@),
            ),
            r@ == join_with(blocks.subrange(0, i as int), "\n\n"@),
        decreases schemas@.len() - i,
    {
        let block = schema_block_text(schemas[i].0.as_str(), &schemas[i].1);
        let ghost before = blocks.subrange(0, i as int);
        join_step(&mut r, i == 0, "\n\n", block.as_str(), Ghost(before));
        assert(before.push(block@) =~= blocks.subrange(0, i as int + 1));
        i = i + 1;
    }
    assert(blocks.subrange(0, schemas@.len() as int) =~= blocks);
    r
}

/// The prompt that asks the model for a query answering a question.
pub fn generate_sql_prompt(question: &str, schemas: &[(String, Vec<ColumnSchema>)], language: &str) -> (r:
    Prompt)
    ensures
        (r.system@, r.user@) == sql_generation_prompt(question@, schemas@, language@),
{
    let mut system = concat2(GENERATE_SQL_HEAD, language);
    system.append(GENERATE_SQL_TAIL);
    let mut user = concat2("Question: ", question);
    user.append("\n\nTable schemas:\n");
    user.append(schema_text_of(schemas).as_str());
    Prompt { system, user }
}

// ---------------------------------------------------------------------------
// Phase 3: summary
// ---------------------------------------------------------------------------

/// Opening of the summary instruction, up to the language instruction.
pub const SUMMARIZE_HEAD: &'static str = "You are a data analyst. Summarize the query results and recommend a visualization.\n";

/// Closing of the summary instruction, after the language instruction.
pub const SUMMARIZE_TAIL: &'static str = "\nRespond ONLY with valid JSON:\n{\n  \"summary\": \"Natural language summary of the data\",\n  \"chart_type\": \"bar|line|pie|scatter|table|none\",\n  \"chart_config\": {\"title\": \"Chart title\", \"x_field\": \"column_name\", \"y_field\": \"column_name\", \"series_field\": null}\n}\nSet chart_type to \"table\" if data is best shown as a table, \"none\" if no visualization makes sense.\nchart_config can be null if chart_type is \"none\".";

/// The language the summary is asked in: German for `de`, English otherwise.
pub open spec fn language_instruction(language: Seq<char>) -> Seq<char> {
    if language == "de"@ {
        "Respond in German."@
    } else {
        "Respond in English."@
    }
}

/// The JSON array whose elements have the given JSON texts.
pub open spec fn json_array_text(items: Seq<Seq<char>>) -> Seq<char> {
    "["@ + join_with(items, ","@) + "]"@
}

/// The query results shown to the model: all rows when there are at most
/// ten, otherwise the first ten followed by a note of the total.
pub open spec fn data_preview(rows: Seq<Seq<char>>) -> Seq<char> {
    if rows.len() > 10 {
        json_array_text(rows.subrange(0, 10)) + " (showing first 10 of "@ + decimal(rows.len())
            + " rows)"@
    } else {
        json_array_text(rows)
    }
}

/// The summary prompt for a question, its query and the query's rows (each
/// row given by its compact JSON text).
pub open spec fn summary_prompt(
    question: Seq<char>,
    sql: Seq<char>,
    rows: Seq<Seq<char>>,
    language: Seq<char>,
) -> (Seq<char>, Seq<char>) {
    (
        SUMMARIZE_HEAD@ + language_instruction(language) + SUMMARIZE_TAIL@,
        "Question: "@ + question + "\nSQL: "@ + sql + "\nResults:\n"@ + data_preview(rows),
    )
}

fn json_array_of(rows: &Vec<String>, n: usize) -> (r: String)
    requires
        n <= rows@.len(),
    ensures
        r@ == json_array_text(rows.deep_view().subrange(0, n as int)),
{
    let mut body = String::new();
    let mut i: usize = 0;
    assert(rows.deep_view().subrange(0, 0) =~= Seq::<Seq<char>>::empty());
    while i < n
        invariant
            i <= n <= rows@.len(),
            body@ == join_with(rows.deep_view().subrange(0, i as int), ","@),
        decreases n - i,
    {
        let ghost before = rows.deep_view().subrange(0, i as int);
        join_step(&mut body, i == 0, ",", rows[i].as_str(), Ghost(before));
        assert(before.push(rows[i as int]@) =~= rows.deep_view().subrange(0, i as int + 1));
        i = i + 1;
    }
    let mut r = "[".to_owned();
    r.append(body.as_str());
    r.append("]");
    r
}

/// The query results as shown to the model.
pub fn data_preview_text(rows: &Vec<String>) -> (r: String)
    ensures
        r@ == data_preview(rows.deep_view()),
{
    if rows.len() > 10 {
        let mut r = json_array_of(rows, 10);
        r.append(" (showing first 10 of ");
        r.append(u64_to_decimal(rows.len() as u64).as_str());
        r.append(" rows)");
        r
    } else {
        let r = json_array_of(rows, rows.len());
        assert(rows.deep_view().subrange(0, rows@.len() as int) =~= rows.deep_view());
        r
    }
}

/// The prompt that asks the model to summarize a query's results and
/// recommend a chart.
pub fn summarize_prompt(question: &str, sql: &str, rows: &Vec<String>, language: &str) -> (r: Prompt)
    ensures
        (r.system@, r.user@) == summary_prompt(question@, sql@, rows.deep_view(), language@),
{
    proof {
        reveal_strlit("de");
    }
    let instruction = if str_equal(language, "de") {
        "Respond in German."
    } else {
        "Respond in English."
    };
    let mut system = concat2(SUMMARIZE_HEAD, instruction);
    system.append(SUMMARIZE_TAIL);
    let mut user = concat2("Question: ", question);
    user.append("\nSQL: ");
    user.append(sql);
    user.append("\nResults:\n");
    user.append(data_preview_text(rows).as_str());
    Prompt { system, user }
}

// ---------------------------------------------------------------------------
// Talking to the endpoint
// ---------------------------------------------------------------------------

/// `s.trim_end_matches(c)`: every trailing `c` removed.
pub open spec fn trim_end_char(s: Seq<char>, c: char) -> Seq<char> {
    trim_end_set(s, TrimSet::Only(c))
}

/// The endpoint's base address without trailing slashes.
pub fn normalize_base_url(base_url: &str) -> (r: String)
    ensures
        r@ == trim_end_char(base_url@, '/'),
{
    let n = base_url.unicode_len();
    let mut j: usize = n;
    assert(base_url@.subrange(0, n as int) =~= base_url@);
    loop
        invariant
            n == base_url@.len(),
            j <= n,
            trim_end_char(base_url@, '/') == trim_end_char(base_url@.subrange(0, j as int), '/'),
        ensures
            j == 0 || base_url@[j as int - 1] != '/',
        decreases j,
    {
        if j == 0 {
            break;
        }
        if base_url.get_char(j - 1) != '/' {
            break;
        }
        assert(base_url@.subrange(0, j as int).drop_last() =~= base_url@.subrange(0, j as int - 1));
        j = j - 1;
    }
    let r = base_url.substring_char(0, j);
    assert(r@.len() > 0 ==> r@.last() == base_url@[j as int - 1]);
    r.to_owned()
}

/// The address of the chat-completions endpoint.
pub fn completions_url(base_url: &str) -> (r: String)
    ensures
        r@ == base_url@ + "/chat/completions"@,
{
    concat2(base_url, "/chat/completions")
}

/// The `Authorization` header value, sent only when a key is configured.
pub fn authorization_header(api_key: &str) -> (r: Option<String>)
    ensures
        api_key@.len() == 0 ==> r is None,
        api_key@.len() > 0 ==> (r matches Some(h) && h@ == "Bearer "@ + api_key@),
{
    if api_key.is_empty() {
        None
    } else {
        Some(concat2("Bearer ", api_key))
    }
}

/// The error for an unsuccessful HTTP status, naming it and the body.
pub fn endpoint_error(status: &str, body: &str) -> (r: OpenEyesError)
    ensures
        r matches OpenEyesError::Llm(m) && m@ == "LLM API returned "@ + status@ + ": "@ + body@,
{
    let mut m = concat2("LLM API returned ", status);
    m.append(": ");
    m.append(body);
    OpenEyesError::Llm(m)
}

/// The error for a reply without message content.
pub fn missing_content_error() -> (r: OpenEyesError)
    ensures
        r matches OpenEyesError::Llm(m) && m@ == "No content in LLM response"@,
{
    OpenEyesError::Llm("No content in LLM response".to_owned())
}

/// What the assistant reads from the model's reply: the text trimmed, one
/// opening fence (`` ```json `` or `` ``` ``) and one closing fence removed if
/// present, and trimmed again.
pub open spec fn fence_stripped(s: Seq<char>) -> Seq<char> {
    let t = trim_ws(s);
    let t1 = if has_prefix(t, "```json"@) {
        t.subrange(7, t.len() as int)
    } else if has_prefix(t, "```"@) {
        t.subrange(3, t.len() as int)
    } else {
        t
    };
    let t2 = if has_suffix(t1, "```"@) {
        t1.subrange(0, t1.len() - 3)
    } else {
        t1
    };
    trim_ws(t2)
}

/// Removes Markdown code fences around the model's reply.
pub fn strip_code_fences(content: &str) -> (r: String)
    ensures
        r@ == fence_stripped(content@),
{
    proof {
        reveal_strlit("```json");
        reveal_strlit("```");
    }
    let t = trim_str(content, TrimSet::Whitespace);
    let n = t.unicode_len();
    let t1 = if starts_with(t, "```json") {
        t.substring_char(7, n)
    } else if starts_with(t, "```") {
        t.substring_char(3, n)
    } else {
        t
    };
    let m = t1.unicode_len();
    let t2 = if ends_with(t1, "```") {
        t1.substring_char(0, m - 3)
    } else {
        t1
    };
    trim_str(t2, TrimSet::Whitespace).to_owned()
}

/// The catalogue offers every loaded table to the model: each table's line
/// appears in it, and a further table adds its line on a line of its own
/// after the others (so the lines follow the tables' order).
pub proof fn lemma_catalogue_lists_tables(tables: Seq<TableInfo>, extra: TableInfo)
    ensures
        forall|i: int| 0 <= i < tables.len() ==> occurs_in(table_line(#[trigger] tables[i]), table_catalogue(tables)),
        table_catalogue(tables.push(extra)) == if tables.len() == 0 {
            table_line(extra)
        } else {
            table_catalogue(tables) + "\n"@ + table_line(extra)
        },
{
    let lines = tables.map_values(|t: TableInfo| table_line(t));
    lemma_join_items_occur(lines, "\n"@);
    assert forall|i: int| 0 <= i < tables.len() implies occurs_in(table_line(#[trigger] tables[i]), table_catalogue(tables)) by {
        assert(lines[i] == table_line(tables[i]));
    }
    assert(tables.push(extra).map_values(|t: TableInfo| table_line(t)) =~= lines.push(table_line(extra)));
    lemma_join_push(lines, "\n"@, table_line(extra));
}

/// A table's catalogue line names the table, its title and every one of its
/// columns.
pub proof fn lemma_table_line_lists_columns(t: TableInfo)
    ensures
        has_prefix(table_line(t), "- "@ + t.table_name@ + ": "@ + t.dataset_title@ + " ("@),
        forall|i: int|
            0 <= i < t.column_names.len() ==> occurs_in(
                (#[trigger] t.column_names@[i])@,
                table_line(t),
            ),
{
    let head = "- "@ + t.table_name@ + ": "@ + t.dataset_title@ + " ("@;
    let names = t.column_names.deep_view();
    let mid = decimal_int(t.row_count as int) + "rows, columns: "@;
    let j = join_with(names, ", "@);
    assert(table_line(t) =~= head + mid + j + ")"@);
    assert(table_line(t).subrange(0, head.len() as int) =~= head);
    lemma_join_items_occur(names, ", "@);
    assert forall|i: int| 0 <= i < t.column_names.len() implies occurs_in(
        (#[trigger] t.column_names@[i])@,
        table_line(t),
    ) by {
        assert(names[i] == t.column_names@[i]@);
        lemma_occurs_in_context(names[i], j, head + mid, ")"@);
    }
}

/// A table's schema block is headed by the table's name and shows every one
/// of its columns with its type.
pub proof fn lemma_schema_block_lists_columns(name: Seq<char>, cols: Seq<ColumnSchema>)
    ensures
        has_prefix(schema_block(name, cols), "TABLE "@ + name + ":\n"@),
        forall|i: int| 0 <= i < cols.len() ==> occurs_in(column_line(#[trigger] cols[i]), schema_block(name, cols)),
{
    let head = "TABLE "@ + name + ":\n"@;
    let lines = cols.map_values(|c: ColumnSchema| column_line(c));
    let j = join_with(lines, ",\n"@);
    assert(schema_block(name, cols).subrange(0, head.len() as int) =~= head);
    lemma_join_items_occur(lines, ",\n"@);
    assert forall|i: int| 0 <= i < cols.len() implies occurs_in(column_line(#[trigger] cols[i]), schema_block(name, cols)) by {
        assert(lines[i] == column_line(cols[i]));
        lemma_occurs_in_context(lines[i], j, head, Seq::empty());
        assert(head + j + Seq::<char>::empty() =~= schema_block(name, cols));
    }
}

/// The schema text shows every selected table: each table's block appears in
/// it, and a further table adds its block after a blank line (so the blocks
/// follow the tables' order).
pub proof fn lemma_schema_text_lists_tables(
    schemas: Seq<(String, Vec<ColumnSchema>)>,
    extra: (String, Vec<ColumnSchema>),
)
    ensures
        forall|i: int|
            0 <= i < schemas.len() ==> occurs_in(
                schema_block((#[trigger] schemas[i]).0@, schemas[i].1@),
                schema_text(schemas),
            ),
        schema_text(schemas.push(extra)) == if schemas.len() == 0 {
            schema_block(extra.0@, extra.1@)
        } else {
            schema_text(schemas) + "\n\n"@ + schema_block(extra.0@, extra.1@)
        },
{
    let blocks = schemas.map_values(|s: (String, Vec<ColumnSchema>)| schema_block(s.0@, s.1@));
    lemma_join_items_occur(blocks, "\n\n"@);
    assert forall|i: int| 0 <= i < schemas.len() implies occurs_in(
        schema_block((#[trigger] schemas[i]).0@, schemas[i].1@),
        schema_text(schemas),
    ) by {
        assert(blocks[i] == schema_block(schemas[i].0@, schemas[i].1@));
    }
    assert(schemas.push(extra).map_values(
        |s: (String, Vec<ColumnSchema>)| schema_block(s.0@, s.1@),
    ) =~= blocks.push(schema_block(extra.0@, extra.1@)));
    lemma_join_push(blocks, "\n\n"@, schema_block(extra.0@, extra.1@));
}

/// The model sees the first rows of the results: each of the first ten rows
/// appears in the preview; more than ten rows read as the preview of the
/// first ten followed by a note of the total; no rows read as `[]`; and a
/// further row, up to the tenth, is added after a comma before the closing
/// bracket.
pub proof fn lemma_data_preview_rows(rows: Seq<Seq<char>>, extra: Seq<char>)
    ensures
        forall|i: int| 0 <= i < rows.len() && i < 10 ==> occurs_in(#[trigger] rows[i], data_preview(rows)),
        rows.len() > 10 ==> data_preview(rows) == data_preview(rows.subrange(0, 10))
            + " (showing first 10 of "@ + decimal(rows.len()) + " rows)"@,
        rows.len() == 0 ==> data_preview(rows) == "[]"@,
        1 <= rows.len() < 10 ==> data_preview(rows.push(extra)) == data_preview(rows).drop_last()
            + ","@ + extra + "]"@,
{
    reveal_strlit("[");
    reveal_strlit("]");
    reveal_strlit("[]");
    let shown = if rows.len() > 10 { rows.subrange(0, 10) } else { rows };
    lemma_join_items_occur(shown, ","@);
    let j = join_with(shown, ","@);
    assert forall|i: int| 0 <= i < rows.len() && i < 10 implies occurs_in(#[trigger] rows[i], data_preview(rows)) by {
        assert(shown[i] == rows[i]);
        lemma_occurs_in_context(rows[i], j, "["@, "]"@);
        if rows.len() > 10 {
            let note = " (showing first 10 of "@ + decimal(rows.len()) + " rows)"@;
            lemma_occurs_in_context(rows[i], "["@ + j + "]"@, Seq::empty(), note);
            assert(Seq::<char>::empty() + ("["@ + j + "]"@) + note =~= data_preview(rows));
        }
    }
    if rows.len() > 10 {
        assert(rows.subrange(0, 10).subrange(0, 10) =~= rows.subrange(0, 10));
    }
    if rows.len() == 0 {
        assert(join_with(rows, ","@) =~= Seq::<char>::empty());
        assert(data_preview(rows) =~= "[]"@);
    }
    if 1 <= rows.len() < 10 {
        lemma_join_push(rows, ","@, extra);
        assert(("["@ + join_with(rows, ","@) + "]"@).drop_last() =~= "["@ + join_with(rows, ","@));
        assert(data_preview(rows.push(extra)) =~= "["@ + join_with(rows, ","@) + ","@ + extra + "]"@);
    }
}

/// Trimming twice is trimming once.
pub proof fn lemma_trim_idempotent(s: Seq<char>, k: TrimSet)
    ensures
        trim_set(trim_set(s, k), k) == trim_set(s, k),
{
    lemma_trim_set_bounds(s, k);
    let t = trim_set(s, k);
    if t.len() > 0 {
        assert(trim_start_set(t, k) == t);
        assert(trim_end_set(t, k) == t);
    } else {
        assert(trim_start_set(t, k) == t);
    }
}

/// A reply fenced as `` ```json ... ``` `` reads as its trimmed inside, and a
/// reply without fences reads as itself trimmed.
pub proof fn lemma_fences_removed(inner: Seq<char>, plain: Seq<char>)
    ensures
        fence_stripped("```json"@ + inner + "```"@) == trim_ws(inner),
        !has_prefix(trim_ws(plain), "```"@) && !has_suffix(trim_ws(plain), "```"@) ==> fence_stripped(
            plain,
        ) == trim_ws(plain),
{
    reveal_strlit("```json");
    reveal_strlit("```");
    let s = "```json"@ + inner + "```"@;
    assert(s[0] == '`');
    assert(s.last() == '`');
    assert(trim_start_set(s, TrimSet::Whitespace) == s);
    assert(trim_end_set(s, TrimSet::Whitespace) == s);
    assert(s.subrange(0, 7) =~= "```json"@);
    let t1 = s.subrange(7, s.len() as int);
    assert(t1 =~= inner + "```"@);
    assert(t1.subrange(t1.len() - 3, t1.len() as int) =~= "```"@);
    assert(t1.subrange(0, t1.len() - 3) =~= inner);
    lemma_trim_idempotent(plain, TrimSet::Whitespace);
    if !has_prefix(trim_ws(plain), "```"@) {
        assert(!has_prefix(trim_ws(plain), "```json"@)) by {
            if has_prefix(trim_ws(plain), "```json"@) {
                assert(trim_ws(plain).subrange(0, 3) =~= "```"@);
            }
        }
    }
}

/// What the assistant takes from the endpoint's reply, given the message
/// content of its first choice (`None` where the reply has no such text):
/// the content without code fences, or the missing-content error.
pub fn reply_content(content: Option<&str>) -> (r: Result<String, OpenEyesError>)
    ensures
        match content {
            Some(c) => r matches Ok(t) && t@ == fence_stripped(c@),
            None => r matches Err(OpenEyesError::Llm(m)) && m@ == "No content in LLM response"@,
        },
{
    match content {
        Some(c) => Ok(strip_code_fences(c)),
        None => Err(missing_content_error()),
    }
}

/// The error for a reply that does not parse as the expected JSON.
pub fn parse_failure(what: &str, error: &str, response: &str) -> (r: OpenEyesError)
    ensures
        r matches OpenEyesError::Llm(m) && m@ == "Failed to parse "@ + what@ + ": "@ + error@
            + "\nResponse: "@ + response@,
{
    let mut m = concat2("Failed to parse ", what);
    m.append(": ");
    m.append(error);
    m.append("\nResponse: ");
    m.append(response);
    OpenEyesError::Llm(m)
}

} // verus!
