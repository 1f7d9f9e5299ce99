//! Loading downloaded resources into tables: table and column names, the
//! statements that create and fill a table, and the table contents read from
//! CSV or JSON.
use vstd::prelude::*;
use vstd::string::*;
use vstd::utf8::*;

use serde_json::Value;

use crate::errors::OpenEyesError;
use crate::text::{
    concat2, has_char, has_prefix, i64_to_decimal, is_alphanumeric, is_alphanumeric_char,
    is_ascii_alphanumeric, is_ascii_digit, join_step, join_with, json_string_list, push_char, sql_escape, escape_sql,
    decimal_int, occurs_in, lemma_occurs_in_context, lemma_join_items_occur,
};

verus! {

// ---------------------------------------------------------------------------
// Column names
// ---------------------------------------------------------------------------

/// A character of a column name as kept: alphanumeric characters and `_`
/// stay, anything else becomes `_`.
pub open spec fn column_char(c: char) -> char {
    if is_alphanumeric(c) || c == '_' {
        c
    } else {
        '_'
    }
}

/// `name` with every character replaced by its column character.
pub open spec fn column_chars(name: Seq<char>) -> Seq<char> {
    name.map_values(|c: char| column_char(c))
}

/// The column name a header or key becomes: its column characters; `col`
/// when that is empty; prefixed with `_` when it starts with an ASCII digit.
pub open spec fn sanitized_column(name: Seq<char>) -> Seq<char> {
    let m = column_chars(name);
    if m.len() == 0 {
        "col"@
    } else if is_ascii_digit(m[0]) {
        seq!['_'] + m
    } else {
        m
    }
}

/// Makes a header or key usable as an SQL column name.
pub fn sanitize_column_name(name: &str) -> (r: String)
    ensures
        r@ == sanitized_column(name@),
{
    let n = name.unicode_len();
    let mut m = String::new();
    let mut i: usize = 0;
    while i < n
        invariant
            n == name@.len(),
            i <= n,
            m@ == column_chars(name@.subrange(0, i as int)),
        decreases n - i,
    {
        let c = name.get_char(i);
        let k = if is_alphanumeric_char(c) || c == '_' {
            c
        } else {
            '_'
        };
        push_char(&mut m, k);
        assert(column_chars(name@.subrange(0, i as int + 1)) =~= column_chars(
            name@.subrange(0, i as int),
        ).push(k));
        i = i + 1;
    }
    assert(name@.subrange(0, n as int) =~= name@);
    if n == 0 {
        "col".to_owned()
    } else {
        let first = m.as_str().get_char(0);
        if '0' <= first && first <= '9' {
            let mut r = String::new();
            push_char(&mut r, '_');
            r.append(m.as_str());
            assert(r@ =~= seq!['_'] + m@);
            r
        } else {
            m
        }
    }
}

/// Whether a character may stand in a column name as sanitizing leaves it.
pub open spec fn column_name_char(c: char) -> bool {
    is_alphanumeric(c) || c == '_'
}

/// For every name, the sanitized column name is non-empty, made of
/// alphanumeric characters and `_` only, and does not start with an ASCII
/// digit; sanitizing it again leaves it unchanged. The empty name becomes
/// `col`.
pub proof fn lemma_sanitized_column_shape(name: Seq<char>)
    ensures
        name.len() == 0 ==> sanitized_column(name) == "col"@,
        ({
            let r = sanitized_column(name);
            &&& r.len() > 0
            &&& forall|i: int| 0 <= i < r.len() ==> column_name_char(#[trigger] r[i])
            &&& !is_ascii_digit(r[0])
            &&& sanitized_column(r) == r
        }),
{
    let m = column_chars(name);
    let r = sanitized_column(name);
    if name.len() > 0 {
        assert forall|i: int| 0 <= i < m.len() implies column_name_char(#[trigger] m[i]) by {
            assert(m[i] == column_char(name[i]));
        }
        assert forall|i: int| 0 <= i < r.len() implies column_name_char(#[trigger] r[i]) by {
            if is_ascii_digit(m[0]) {
                if i > 0 {
                    assert(r[i] == m[i - 1]);
                }
            }
        }
    } else {
        reveal_strlit("col");
        assert(r == seq!['c', 'o', 'l']);
        assert forall|i: int| 0 <= i < r.len() implies column_name_char(#[trigger] r[i]) by {
            assert(is_ascii_alphanumeric(r[i]));
        }
    }
    assert(column_chars(r) =~= r) by {
        assert forall|i: int| 0 <= i < r.len() implies column_chars(r)[i] == r[i] by {
            assert(column_name_char(r[i]));
        }
    }
    assert(!is_ascii_digit(r[0]));
}

// ---------------------------------------------------------------------------
// Table names
// ---------------------------------------------------------------------------

/// How many leading bytes of an id go into a table name: at most 8.
pub open spec fn id_prefix_len(s: Seq<char>) -> int {
    if encode_utf8(s).len() < 8 {
        encode_utf8(s).len() as int
    } else {
        8
    }
}

/// The characters of the first `id_prefix_len` bytes of an id.
pub open spec fn id_prefix(s: Seq<char>) -> Seq<char> {
    decode_utf8(encode_utf8(s).subrange(0, id_prefix_len(s)))
}

/// Whether the first `id_prefix_len` bytes of an id end on a character
/// boundary (slicing the id anywhere else panics).
pub open spec fn id_prefix_on_boundary(s: Seq<char>) -> bool {
    is_char_boundary(encode_utf8(s), id_prefix_len(s))
}

fn id_head<'a>(s: &'a str) -> (r: &'a str)
    requires
        id_prefix_on_boundary(s@),
    ensures
        r@ == id_prefix(s@),
        has_prefix(s@, r@),
{
    let n = s.as_bytes().len();
    let k: usize = if n < 8 {
        n
    } else {
        8
    };
    assert(k as int == id_prefix_len(s@));
    let (head, _tail) = s.split_at(k);
    proof {
        encode_utf8_decode_utf8(head@);
        encode_utf8_valid_utf8(s@);
        encode_utf8_decode_utf8(s@);
        decode_utf8_split(s.spec_bytes(), k as int);
        assert(head.spec_bytes() == s.spec_bytes().subrange(0, k as int));
        let rest = decode_utf8(s.spec_bytes().subrange(k as int, s.spec_bytes().len() as int));
        assert(s@ == head@ + rest);
        assert(s@.subrange(0, head@.len() as int) =~= head@);
    }
    head
}

/// The name of the table a resource is loaded into:
/// `data_{first 8 bytes of the dataset id}_{first 8 bytes of the resource id}`.
pub fn make_table_name(dataset_id: &str, resource_id: &str) -> (r: String)
    requires
        id_prefix_on_boundary(dataset_id@),
        id_prefix_on_boundary(resource_id@),
    ensures
        r@ == "data_"@ + id_prefix(dataset_id@) + "_"@ + id_prefix(resource_id@),
{
    let ds = id_head(dataset_id);
    let rs = id_head(resource_id);
    let mut r = concat2("data_", ds);
    r.append("_");
    r.append(rs);
    r
}

/// Whether a table may be previewed in the dashboard: its name starts with
/// `data_` and holds neither `;` nor `'`.
pub open spec fn preview_table_allowed(name: Seq<char>) -> bool {
    has_prefix(name, "data_"@) && !has_char(name, ';') && !has_char(name, '\'')
}

/// Tables named by `make_table_name` pass the dashboard's preview check
/// whenever neither id holds `;` or `'`.
pub proof fn lemma_table_names_previewable(dataset_id: Seq<char>, resource_id: Seq<char>)
    requires
        id_prefix_on_boundary(dataset_id),
        id_prefix_on_boundary(resource_id),
        !has_char(dataset_id, ';') && !has_char(dataset_id, '\''),
        !has_char(resource_id, ';') && !has_char(resource_id, '\''),
    ensures
        preview_table_allowed(
            "data_"@ + id_prefix(dataset_id) + "_"@ + id_prefix(resource_id),
        ),
{
    reveal_strlit("data_");
    reveal_strlit("_");
    lemma_id_prefix_is_prefix(dataset_id);
    lemma_id_prefix_is_prefix(resource_id);
    let a = id_prefix(dataset_id);
    let b = id_prefix(resource_id);
    let name = "data_"@ + a + "_"@ + b;
    assert(name.subrange(0, 5) =~= "data_"@);
    assert forall|c: char| c == ';' || c == '\'' implies !has_char(name, c) by {
        if has_char(name, c) {
            let k = choose|k: int| 0 <= k < name.len() && name[k] == c;
            if k < 5 {
                assert(name[k] == "data_"@[k]);
            } else if k < 5 + a.len() {
                assert(name[k] == a[k - 5]);
                assert(dataset_id[k - 5] == a[k - 5]);
            } else if k == 5 + a.len() {
                assert(name[k] == '_');
            } else {
                assert(name[k] == b[k - 6 - a.len()]);
                assert(resource_id[k - 6 - a.len()] == b[k - 6 - a.len()]);
            }
        }
    }
}

proof fn lemma_id_prefix_is_prefix(s: Seq<char>)
    requires
        id_prefix_on_boundary(s),
    ensures
        has_prefix(s, id_prefix(s)),
{
    let k = id_prefix_len(s);
    encode_utf8_valid_utf8(s);
    encode_utf8_decode_utf8(s);
    decode_utf8_split(encode_utf8(s), k);
    let head = id_prefix(s);
    let rest = decode_utf8(encode_utf8(s).subrange(k, encode_utf8(s).len() as int));
    assert(s == head + rest);
    assert(s.subrange(0, head.len() as int) =~= head);
}

// ---------------------------------------------------------------------------
// Creating and filling a table
// ---------------------------------------------------------------------------

/// The column definition of a header: `"h" TEXT`.
pub open spec fn column_def(h: Seq<char>) -> Seq<char> {
    "\""@ + h + "\" TEXT"@
}

/// All column definitions, comma separated.
pub open spec fn column_defs(headers: Seq<Seq<char>>) -> Seq<char> {
    join_with(headers.map_values(|h: Seq<char>| column_def(h)), ", "@)
}

/// The statements that replace a table by an empty one with `TEXT` columns.
pub open spec fn create_table_sql(table: Seq<char>, headers: Seq<Seq<char>>) -> Seq<char> {
    "DROP TABLE IF EXISTS "@ + table + "; CREATE TABLE "@ + table + " ("@ + column_defs(headers)
        + ");"@
}

/// The parameterized statement that inserts one row of `n` values.
pub open spec fn insert_row_sql(table: Seq<char>, n: nat) -> Seq<char> {
    "INSERT INTO "@ + table + " VALUES ("@ + join_with(Seq::new(n, |i: int| "?"@), ", "@) + ")"@
}

/// The created table has a `TEXT` column for every header: each header's
/// column definition appears in the statements, which drop the table first.
pub proof fn lemma_create_table_lists_columns(table: Seq<char>, headers: Seq<Seq<char>>)
    ensures
        has_prefix(create_table_sql(table, headers), "DROP TABLE IF EXISTS "@ + table + "; CREATE TABLE "@ + table + " ("@),
        forall|i: int|
            0 <= i < headers.len() ==> occurs_in(
                column_def(#[trigger] headers[i]),
                create_table_sql(table, headers),
            ),
{
    let head = "DROP TABLE IF EXISTS "@ + table + "; CREATE TABLE "@ + table + " ("@;
    let defs = headers.map_values(|h: Seq<char>| column_def(h));
    let j = join_with(defs, ", "@);
    assert(create_table_sql(table, headers) =~= head + j + ");"@);
    assert(create_table_sql(table, headers).subrange(0, head.len() as int) =~= head);
    lemma_join_items_occur(defs, ", "@);
    assert forall|i: int| 0 <= i < headers.len() implies occurs_in(
        column_def(#[trigger] headers[i]),
        create_table_sql(table, headers),
    ) by {
        assert(defs[i] == column_def(headers[i]));
        lemma_occurs_in_context(defs[i], j, head, ");"@);
    }
}

/// The statements that create a table with the given headers.
pub fn create_table_statement(table: &str, headers: &Vec<String>) -> (r: String)
    ensures
        r@ == create_table_sql(table@, headers.deep_view()),
{
    let mut defs = String::new();
    let mut i: usize = 0;
    let ghost hs = headers.deep_view();
    let ghost all = hs.map_values(|h: Seq<char>| column_def(h));
    assert(all.subrange(0, 0) =~= Seq::<Seq<char>>::empty());
    while i < headers.len()
        invariant
            i <= headers@.len(),
            hs == headers.deep_view(),
            all == hs.map_values(|h: Seq<char>| column_def(h)),
            defs@ == join_with(all.subrange(0, i as int), ", "@),
        decreases headers@.len() - i,
    {
        let mut d = concat2("\"", headers[i].as_str());
        d.append("\" TEXT");
        let ghost before = all.subrange(0, i as int);
        join_step(&mut defs, i == 0, ", ", d.as_str(), Ghost(before));
        assert(before.push(d@) =~= all.subrange(0, i as int + 1));
        i = i + 1;
    }
    assert(all.subrange(0, headers@.len() as int) =~= all);
    let mut r = concat2("DROP TABLE IF EXISTS ", table);
    r.append("; CREATE TABLE ");
    r.append(table);
    r.append(" (");
    r.append(defs.as_str());
    r.append(");");
    r
}

/// The parameterized statement that inserts one row of `n` values.
pub fn insert_row_statement(table: &str, n: usize) -> (r: String)
    ensures
        r@ == insert_row_sql(table@, n as nat),
{
    let ghost all = Seq::new(n as nat, |i: int| "?"@);
    let mut ph = String::new();
    let mut i: usize = 0;
    assert(all.subrange(0, 0) =~= Seq::<Seq<char>>::empty());
    while i < n
        invariant
            i <= n,
            all == Seq::new(n as nat, |i: int| "?"@),
            ph@ == join_with(all.subrange(0, i as int), ", "@),
        decreases n - i,
    {
        let ghost before = all.subrange(0, i as int);
        join_step(&mut ph, i == 0, ", ", "?", Ghost(before));
        assert(before.push("?"@) =~= all.subrange(0, i as int + 1));
        i = i + 1;
    }
    assert(all.subrange(0, n as int) =~= all);
    let mut r = concat2("INSERT INTO ", table);
    r.append(" VALUES (");
    r.append(ph.as_str());
    r.append(")");
    r
}

/// What loading a resource writes: the statements that (re)create its table,
/// the statement that inserts one row, and the rows to insert.
#[derive(Debug)]
pub struct TableLoad {
    pub create_sql: String,
    pub insert_sql: String,
    pub rows: Vec<Vec<String>>,
}

/// The view of a table's rows.
pub open spec fn rows_view(rows: Seq<Vec<String>>) -> Seq<Seq<Seq<char>>> {
    Seq::new(rows.len(), |i: int| rows[i].deep_view())
}

// ---------------------------------------------------------------------------
// CSV resources
// ---------------------------------------------------------------------------

/// What the `csv` reader (flexible row lengths, first row as headers) reads as
/// the header row of some bytes: its fields, or the text of its error.
pub uninterp spec fn csv_header_fields(bytes: Seq<u8>) -> Result<Seq<Seq<char>>, Seq<char>>;

/// What the same reader reads as the data records of some bytes, in order:
/// each record's fields, or `None` for a record it could not read.
pub uninterp spec fn csv_data_records(bytes: Seq<u8>) -> Seq<Option<Seq<Seq<char>>>>;

/// Reads the header row with `csv::ReaderBuilder` (flexible, with headers).
#[verifier::external_body]
fn read_csv_headers(bytes: &[u8]) -> (r: Result<Vec<String>, String>)
    ensures
        match r {
            Ok(h) => csv_header_fields(bytes@) == Ok::<Seq<Seq<char>>, Seq<char>>(h.deep_view()),
            Err(e) => csv_header_fields(bytes@) == Err::<Seq<Seq<char>>, Seq<char>>(e@),
        },
{
    let mut reader = csv::ReaderBuilder::new().flexible(true).has_headers(true).from_reader(bytes);
    match reader.headers() {
        Ok(h) => Ok(h.iter().map(|f| f.to_string()).collect()),
        Err(e) => Err(e.to_string()),
    }
}

/// Reads the data records with `csv::ReaderBuilder` (flexible, with headers).
#[verifier::external_body]
fn read_csv_records(bytes: &[u8]) -> (r: Vec<Option<Vec<String>>>)
    ensures
        r@.len() == csv_data_records(bytes@).len(),
        forall|i: int|
            0 <= i < r@.len() ==> match #[trigger] r@[i] {
                Some(f) => csv_data_records(bytes@)[i] == Some(f.deep_view()),
                None => csv_data_records(bytes@)[i] is None,
            },
{
    let mut reader = csv::ReaderBuilder::new().flexible(true).has_headers(true).from_reader(bytes);
    reader.records().map(|rec| rec.ok().map(|r| r.iter().map(|f| f.to_string()).collect())).collect()
}

/// A record cut or padded with empty fields to `n` fields.
pub open spec fn padded_record(fields: Seq<Seq<char>>, n: nat) -> Seq<Seq<char>> {
    Seq::new(n, |i: int| if i < fields.len() { fields[i] } else { Seq::empty() })
}

/// The records that were read, each cut or padded to `n` fields.
pub open spec fn csv_rows(records: Seq<Option<Seq<Seq<char>>>>, n: nat) -> Seq<Seq<Seq<char>>>
    decreases records.len(),
{
    if records.len() == 0 {
        Seq::empty()
    } else {
        let prev = csv_rows(records.drop_last(), n);
        match records.last() {
            Some(f) => prev.push(padded_record(f, n)),
            None => prev,
        }
    }
}

/// The loaded rows of a CSV resource are its readable records, padded, and
/// nothing else: one row per record that was read, in order, each of `n`
/// fields; a record that could not be read adds no row.
pub proof fn lemma_csv_rows_are_readable_records(
    records: Seq<Option<Seq<Seq<char>>>>,
    n: nat,
    next: Option<Seq<Seq<char>>>,
)
    ensures
        csv_rows(records, n) == records.filter(|r: Option<Seq<Seq<char>>>| r is Some).map_values(
            |r: Option<Seq<Seq<char>>>|
                match r {
                    Some(f) => padded_record(f, n),
                    None => Seq::empty(),
                },
        ),
        csv_rows(records, n).len() == records.filter(|r: Option<Seq<Seq<char>>>| r is Some).len(),
        forall|i: int| 0 <= i < csv_rows(records, n).len() ==> (#[trigger] csv_rows(records, n)[i]).len() == n,
        next is None ==> csv_rows(records.push(next), n) == csv_rows(records, n),
    decreases records.len(),
{
    reveal(Seq::filter);
    let read = |r: Option<Seq<Seq<char>>>| r is Some;
    let pad = |r: Option<Seq<Seq<char>>>|
        match r {
            Some(f) => padded_record(f, n),
            None => Seq::empty(),
        };
    if records.len() == 0 {
        assert(records.filter(read) =~= Seq::<Option<Seq<Seq<char>>>>::empty());
        assert(records.filter(read).map_values(pad) =~= Seq::<Seq<Seq<char>>>::empty());
    } else {
        let p = records.drop_last();
        lemma_csv_rows_are_readable_records(p, n, next);
        let x = records.last();
        let fp = p.filter(read);
        if read(x) {
            assert(records.filter(read) == fp.push(x));
            assert(fp.push(x).map_values(pad) =~= fp.map_values(pad).push(pad(x)));
        } else {
            assert(records.filter(read) == fp);
        }
        assert forall|i: int| 0 <= i < csv_rows(records, n).len() implies (#[trigger] csv_rows(
            records,
            n,
        )[i]).len() == n by {
            if i < csv_rows(p, n).len() {
                assert(csv_rows(records, n)[i] == csv_rows(p, n)[i]);
            }
        }
    }
    assert(records.push(next).drop_last() =~= records);
}

fn pad_record(fields: &Vec<String>, n: usize) -> (r: Vec<String>)
    ensures
        r.deep_view() == padded_record(fields.deep_view(), n as nat),
{
    let mut r: Vec<String> = Vec::new();
    let mut i: usize = 0;
    while i < n
        invariant
            i <= n,
            r.deep_view() =~= padded_record(fields.deep_view(), n as nat).subrange(0, i as int),
        decreases n - i,
    {
        let ghost before = r.deep_view();
        let x = if i < fields.len() {
            fields[i].clone()
        } else {
            String::new()
        };
        assert(x@ == padded_record(fields.deep_view(), n as nat)[i as int]);
        r.push(x);
        assert(r.deep_view() =~= before.push(x@));
        i = i + 1;
    }
    r
}

/// Sanitized headers, in order.
pub open spec fn sanitized_headers(h: Seq<Seq<char>>) -> Seq<Seq<char>> {
    h.map_values(|x: Seq<char>| sanitized_column(x))
}

/// Reads a CSV resource into the table it loads as.
pub fn csv_table_load(bytes: &[u8], table_name: &str) -> (r: Result<TableLoad, OpenEyesError>)
    ensures
        match csv_header_fields(bytes@) {
            Err(e) => r matches Err(OpenEyesError::Ingestion(m)) && m@ == "CSV header error: "@ + e,
            Ok(h) => if h.len() == 0 {
                r matches Err(OpenEyesError::Ingestion(m)) && m@ == "CSV has no headers"@
            } else {
                r matches Ok(load) && load.create_sql@ == create_table_sql(
                    table_name@,
                    sanitized_headers(h),
                ) && load.insert_sql@ == insert_row_sql(table_name@, h.len()) && rows_view(
                    load.rows@,
                ) == csv_rows(csv_data_records(bytes@), h.len())
            },
        },
{
    let raw = match read_csv_headers(bytes) {
        Ok(h) => h,
        Err(e) => {
            return Err(OpenEyesError::Ingestion(concat2("CSV header error: ", e.as_str())));
        },
    };
    if raw.len() == 0 {
        return Err(OpenEyesError::Ingestion("CSV has no headers".to_owned()));
    }
    let mut headers: Vec<String> = Vec::new();
    let mut i: usize = 0;
    while i < raw.len()
        invariant
            i <= raw@.len(),
            headers.deep_view() =~= sanitized_headers(raw.deep_view()).subrange(0, i as int),
        decreases raw@.len() - i,
    {
        let ghost before = headers.deep_view();
        let h = sanitize_column_name(raw[i].as_str());
        assert(h@ == sanitized_headers(raw.deep_view())[i as int]);
        headers.push(h);
        assert(headers.deep_view() =~= before.push(h@));
        i = i + 1;
    }
    assert(sanitized_headers(raw.deep_view()).subrange(0, raw@.len() as int) =~= sanitized_headers(
        raw.deep_view(),
    ));
    assert(headers.deep_view() == sanitized_headers(raw.deep_view()));
    let n = headers.len();
    assert(n == raw.deep_view().len());
    let create_sql = create_table_statement(table_name, &headers);
    let insert_sql = insert_row_statement(table_name, n);
    let records = read_csv_records(bytes);
    let ghost recs = csv_data_records(bytes@);
    let mut rows: Vec<Vec<String>> = Vec::new();
    let mut j: usize = 0;
    assert(recs.subrange(0, 0) =~= Seq::<Option<Seq<Seq<char>>>>::empty());
    while j < records.len()
        invariant
            j <= records@.len(),
            records@.len() == recs.len(),
            recs == csv_data_records(bytes@),
            forall|k: int|
                0 <= k < records@.len() ==> match #[trigger] records@[k] {
                    Some(f) => recs[k] == Some(f.deep_view()),
                    None => recs[k] is None,
                },
            rows_view(rows@) == csv_rows(recs.subrange(0, j as int), n as nat),
        decreases records@.len() - j,
    {
        assert(recs.subrange(0, j as int + 1).drop_last() =~= recs.subrange(0, j as int));
        let ghost before = rows@;
        match &records[j] {
            Some(fields) => {
                let row = pad_record(fields, n);
                rows.push(row);
                assert(rows_view(rows@) =~= rows_view(before).push(
                    padded_record(fields.deep_view(), n as nat),
                ));
            },
            None => {},
        }
        j = j + 1;
    }
    assert(recs.subrange(0, recs.len() as int) =~= recs);
    Ok(TableLoad { create_sql, insert_sql, rows })
}

// ---------------------------------------------------------------------------
// JSON resources
// ---------------------------------------------------------------------------

/// A value in a JSON object, as a table cell sees it.
pub enum JsonCell {
    /// `null`
    Null,
    /// A JSON string, with its text.
    Text(String),
    /// Any other value, with its compact JSON text.
    Other(String),
}

/// A parsed JSON resource.
pub enum JsonPayload {
    /// A top-level array: each element's key/value pairs in map order, or
    /// `None` for an element that is not an object.
    Array(Vec<Option<Vec<(String, JsonCell)>>>),
    /// A top-level object's key/value pairs in map order.
    Object(Vec<(String, JsonCell)>),
    /// Any other top-level value.
    Scalar,
}

/// A JSON cell as plain values.
pub enum CellView {
    Null,
    Text(Seq<char>),
    Other(Seq<char>),
}

/// A parsed JSON resource as plain values.
pub enum PayloadView {
    Array(Seq<Option<Seq<(Seq<char>, CellView)>>>),
    Object(Seq<(Seq<char>, CellView)>),
    Scalar,
}

/// The plain values of a cell.
pub open spec fn cell_view(c: JsonCell) -> CellView {
    match c {
        JsonCell::Null => CellView::Null,
        JsonCell::Text(s) => CellView::Text(s@),
        JsonCell::Other(s) => CellView::Other(s@),
    }
}

/// The plain values of an object's key/value pairs.
pub open spec fn object_view(o: Seq<(String, JsonCell)>) -> Seq<(Seq<char>, CellView)> {
    o.map_values(|kv: (String, JsonCell)| (kv.0@, cell_view(kv.1)))
}

/// The plain values of an array element: its pairs if it is an object.
pub open spec fn element_view(e: Option<Vec<(String, JsonCell)>>) -> Option<Seq<(Seq<char>, CellView)>> {
    match e {
        Some(o) => Some(object_view(o@)),
        None => None,
    }
}

/// The plain values of a parsed resource.
pub open spec fn payload_view(p: JsonPayload) -> PayloadView {
    match p {
        JsonPayload::Array(a) => PayloadView::Array(
            a@.map_values(|e: Option<Vec<(String, JsonCell)>>| element_view(e)),
        ),
        JsonPayload::Object(o) => PayloadView::Object(object_view(o@)),
        JsonPayload::Scalar => PayloadView::Scalar,
    }
}

/// The plain values of a parse outcome: the payload, or the error's text.
pub open spec fn parsed_view(p: Result<JsonPayload, String>) -> Result<PayloadView, Seq<char>> {
    match p {
        Ok(v) => Ok(payload_view(v)),
        Err(e) => Err(e@),
    }
}

/// What serde_json makes of a JSON resource's bytes (read as UTF-8, invalid
/// sequences replaced by U+FFFD): its top-level value, each object's pairs in
/// map order with strings, `null`s and other values told apart, or the text
/// of the parse error.
pub uninterp spec fn json_resource_payload(bytes: Seq<u8>) -> Result<PayloadView, Seq<char>>;

/// Reads a JSON resource with `String::from_utf8_lossy` and
/// `serde_json::from_str`, and converts the value variant by variant; the
/// result is the one named by `json_resource_payload` for the same bytes.
#[verifier::external_body]
fn read_json_payload(bytes: &[u8]) -> (r: Result<JsonPayload, String>)
    ensures
        parsed_view(r) == json_resource_payload(bytes@),
{
    let cells = |o: &serde_json::Map<String, Value>| o.iter().map(|(k, v)| (k.clone(), match v {
        Value::Null => JsonCell::Null,
        Value::String(s) => JsonCell::Text(s.clone()),
        other => JsonCell::Other(other.to_string()),
    })).collect();
    match serde_json::from_str(&String::from_utf8_lossy(bytes)) {
        Ok(Value::Array(a)) => Ok(JsonPayload::Array(a.iter().map(|v| v.as_object().map(&cells)).collect())),
        Ok(Value::Object(o)) => Ok(JsonPayload::Object(cells(&o))),
        Ok(_) => Ok(JsonPayload::Scalar),
        Err(e) => Err(e.to_string()),
    }
}

/// The text a cell is stored as: a string's own text, nothing for `null`,
/// and the JSON text of anything else.
pub open spec fn cell_text(c: CellView) -> Seq<char> {
    match c {
        CellView::Null => Seq::empty(),
        CellView::Text(s) => s,
        CellView::Other(s) => s,
    }
}

/// The object rows of a payload.
pub open spec fn payload_rows(p: PayloadView) -> Seq<Seq<(Seq<char>, CellView)>> {
    match p {
        PayloadView::Array(a) => object_elements(a),
        PayloadView::Object(o) => seq![o],
        PayloadView::Scalar => Seq::empty(),
    }
}

/// The elements that are objects, in order.
pub open spec fn object_elements(a: Seq<Option<Seq<(Seq<char>, CellView)>>>) -> Seq<
    Seq<(Seq<char>, CellView)>,
>
    decreases a.len(),
{
    if a.len() == 0 {
        Seq::empty()
    } else {
        let prev = object_elements(a.drop_last());
        match a.last() {
            Some(o) => prev.push(o),
            None => prev,
        }
    }
}

/// The object rows of an array are exactly its elements that are objects, in
/// order: every other element is passed over.
pub proof fn lemma_object_elements_are_objects(a: Seq<Option<Seq<(Seq<char>, CellView)>>>)
    ensures
        object_elements(a) == a.filter(|e: Option<Seq<(Seq<char>, CellView)>>| e is Some).map_values(
            |e: Option<Seq<(Seq<char>, CellView)>>|
                match e {
                    Some(o) => o,
                    None => Seq::empty(),
                },
        ),
    decreases a.len(),
{
    reveal(Seq::filter);
    let obj = |e: Option<Seq<(Seq<char>, CellView)>>| e is Some;
    let un = |e: Option<Seq<(Seq<char>, CellView)>>|
        match e {
            Some(o) => o,
            None => Seq::empty(),
        };
    if a.len() == 0 {
        assert(a.filter(obj) =~= Seq::<Option<Seq<(Seq<char>, CellView)>>>::empty());
        assert(a.filter(obj).map_values(un) =~= Seq::<Seq<(Seq<char>, CellView)>>::empty());
    } else {
        let p = a.drop_last();
        lemma_object_elements_are_objects(p);
        let x = a.last();
        let fp = p.filter(obj);
        if obj(x) {
            assert(a.filter(obj) == fp.push(x));
            assert(fp.push(x).map_values(un) =~= fp.map_values(un).push(un(x)));
        } else {
            assert(a.filter(obj) == fp);
        }
    }
}

/// The sanitized keys of all rows, row after row, each row's keys in order.
pub open spec fn sanitized_keys(rows: Seq<Seq<(Seq<char>, CellView)>>) -> Seq<Seq<char>>
    decreases rows.len(),
{
    if rows.len() == 0 {
        Seq::empty()
    } else {
        sanitized_keys(rows.drop_last()) + row_keys(rows.last())
    }
}

/// The sanitized keys of one row.
pub open spec fn row_keys(row: Seq<(Seq<char>, CellView)>) -> Seq<Seq<char>> {
    row.map_values(|kv: (Seq<char>, CellView)| sanitized_column(kv.0))
}

/// The distinct elements, each where it first occurs.
pub open spec fn first_occurrences(xs: Seq<Seq<char>>) -> Seq<Seq<char>>
    decreases xs.len(),
{
    if xs.len() == 0 {
        Seq::empty()
    } else {
        let prev = first_occurrences(xs.drop_last());
        if prev.contains(xs.last()) {
            prev
        } else {
            prev.push(xs.last())
        }
    }
}

/// The text of the first cell of a row whose sanitized key is `h`; empty when
/// there is none.
pub open spec fn row_cell(row: Seq<(Seq<char>, CellView)>, h: Seq<char>) -> Seq<char>
    decreases row.len(),
{
    if row.len() == 0 {
        Seq::empty()
    } else if sanitized_column(row[0].0) == h {
        cell_text(row[0].1)
    } else {
        row_cell(row.drop_first(), h)
    }
}

/// The values of a row, one per header.
pub open spec fn row_values(row: Seq<(Seq<char>, CellView)>, headers: Seq<Seq<char>>) -> Seq<Seq<char>> {
    headers.map_values(|h: Seq<char>| row_cell(row, h))
}

/// What loading a parsed JSON resource gives: a parse error, a top-level
/// value that is neither array nor object, or no object rows are errors;
/// otherwise a table of `TEXT` columns named by the distinct sanitized keys
/// in order of first appearance, one row per object holding, for each column,
/// the first of its values whose key sanitizes to that column (empty where
/// none does).
pub open spec fn json_load_result(
    parsed: Result<PayloadView, Seq<char>>,
    table_name: Seq<char>,
    r: Result<TableLoad, OpenEyesError>,
) -> bool {
    match parsed {
        Err(e) => r matches Err(OpenEyesError::Ingestion(m)) && m@ == "JSON parse error: "@ + e,
        Ok(PayloadView::Scalar) => r matches Err(OpenEyesError::Ingestion(m)) && m@
            == "JSON must be an array or object"@,
        Ok(p) => if payload_rows(p).len() == 0 {
            r matches Err(OpenEyesError::Ingestion(m)) && m@ == "JSON has no rows"@
        } else {
            let headers = first_occurrences(sanitized_keys(payload_rows(p)));
            r matches Ok(load) && load.create_sql@ == create_table_sql(table_name, headers)
                && load.insert_sql@ == insert_row_sql(table_name, headers.len()) && rows_view(
                load.rows@,
            ) == Seq::new(payload_rows(p).len(), |i: int| row_values(payload_rows(p)[i], headers))
        },
    }
}

fn contains_string(v: &Vec<String>, x: &str) -> (b: bool)
    ensures
        b == v.deep_view().contains(x@),
{
    let mut i: usize = 0;
    while i < v.len()
        invariant
            i <= v@.len(),
            forall|k: int| 0 <= k < i ==> v.deep_view()[k] != x@,
        decreases v@.len() - i,
    {
        if crate::text::str_equal(v[i].as_str(), x) {
            assert(v.deep_view()[i as int] == x@);
            return true;
        }
        i = i + 1;
    }
    false
}

fn cell_string(c: &JsonCell) -> (r: String)
    ensures
        r@ == cell_text(cell_view(*c)),
{
    match c {
        JsonCell::Null => String::new(),
        JsonCell::Text(s) => s.clone(),
        JsonCell::Other(s) => s.clone(),
    }
}

fn find_cell(row: &Vec<(String, JsonCell)>, h: &str) -> (r: String)
    ensures
        r@ == row_cell(object_view(row@), h@),
{
    let ghost ov = object_view(row@);
    let mut i: usize = 0;
    assert(ov.subrange(0, ov.len() as int) =~= ov);
    while i < row.len()
        invariant
            i <= row@.len(),
            ov == object_view(row@),
            row_cell(ov, h@) == row_cell(ov.subrange(i as int, ov.len() as int), h@),
        decreases row@.len() - i,
    {
        let ghost rest = ov.subrange(i as int, ov.len() as int);
        assert(rest.drop_first() =~= ov.subrange(i as int + 1, ov.len() as int));
        assert(rest[0] == (row@[i as int].0@, cell_view(row@[i as int].1)));
        let k = sanitize_column_name(row[i].0.as_str());
        if crate::text::str_equal(k.as_str(), h) {
            return cell_string(&row[i].1);
        }
        i = i + 1;
    }
    assert(ov.subrange(ov.len() as int, ov.len() as int) =~= Seq::<(Seq<char>, CellView)>::empty());
    String::new()
}

fn collect_object_rows(p: &JsonPayload) -> (r: Vec<&Vec<(String, JsonCell)>>)
    ensures
        r@.len() == payload_rows(payload_view(*p)).len(),
        forall|i: int|
            0 <= i < r@.len() ==> object_view((#[trigger] r@[i])@) == payload_rows(payload_view(*p))[i],
{
    let mut r: Vec<&Vec<(String, JsonCell)>> = Vec::new();
    match p {
        JsonPayload::Array(a) => {
            let ghost av = a@.map_values(|e: Option<Vec<(String, JsonCell)>>| element_view(e));
            let mut i: usize = 0;
            while i < a.len()
                invariant
                    i <= a@.len(),
                    av == a@.map_values(|e: Option<Vec<(String, JsonCell)>>| element_view(e)),
                    r@.len() == object_elements(av.subrange(0, i as int)).len(),
                    forall|k: int|
                        0 <= k < r@.len() ==> object_view((#[trigger] r@[k])@) == object_elements(
                            av.subrange(0, i as int),
                        )[k],
                decreases a@.len() - i,
            {
                assert(av.subrange(0, i as int + 1).drop_last() =~= av.subrange(0, i as int));
                assert(av.subrange(0, i as int + 1).last() == element_view(a@[i as int]));
                match &a[i] {
                    Some(o) => {
                        r.push(o);
                    },
                    None => {},
                }
                i = i + 1;
            }
            assert(av.subrange(0, a@.len() as int) =~= av);
        },
        JsonPayload::Object(o) => {
            r.push(o);
        },
        JsonPayload::Scalar => {},
    }
    r
}

/// Reads a parsed JSON resource into the table it loads as
/// (`json_load_result`).
pub fn json_table_load(parsed: &Result<JsonPayload, String>, table_name: &str) -> (r: Result<
    TableLoad,
    OpenEyesError,
>)
    ensures
        json_load_result(parsed_view(*parsed), table_name@, r),
{
    let payload = match parsed {
        Err(e) => {
            return Err(OpenEyesError::Ingestion(concat2("JSON parse error: ", e.as_str())));
        },
        Ok(p) => p,
    };
    if let JsonPayload::Scalar = payload {
        return Err(OpenEyesError::Ingestion("JSON must be an array or object".to_owned()));
    }
    let rows = collect_object_rows(payload);
    let ghost prs = payload_rows(payload_view(*payload));
    if rows.len() == 0 {
        return Err(OpenEyesError::Ingestion("JSON has no rows".to_owned()));
    }
    // Distinct sanitized keys, in order of first appearance.
    let mut headers: Vec<String> = Vec::new();
    let mut i: usize = 0;
    assert(prs.subrange(0, 0) =~= Seq::<Seq<(Seq<char>, CellView)>>::empty());
    while i < rows.len()
        invariant
            i <= rows@.len(),
            rows@.len() == prs.len(),
            forall|k: int| 0 <= k < rows@.len() ==> object_view((#[trigger] rows@[k])@) == prs[k],
            headers.deep_view() == first_occurrences(sanitized_keys(prs.subrange(0, i as int))),
        decreases rows@.len() - i,
    {
        let row = rows[i];
        let ghost ov = object_view(row@);
        let ghost base = sanitized_keys(prs.subrange(0, i as int));
        let mut j: usize = 0;
        assert(base + row_keys(ov).subrange(0, 0) =~= base);
        while j < row.len()
            invariant
                j <= row@.len(),
                ov == object_view(row@),
                headers.deep_view() == first_occurrences(base + row_keys(ov).subrange(0, j as int)),
            decreases row@.len() - j,
        {
            let key = sanitize_column_name(row[j].0.as_str());
            let ghost seen = base + row_keys(ov).subrange(0, j as int);
            assert(row_keys(ov)[j as int] == key@);
            assert(base + row_keys(ov).subrange(0, j as int + 1) =~= seen.push(key@));
            assert((seen.push(key@)).drop_last() =~= seen);
            if !contains_string(&headers, key.as_str()) {
                let ghost before = headers.deep_view();
                headers.push(key);
                assert(headers.deep_view() =~= before.push(key@));
            }
            j = j + 1;
        }
        assert(row_keys(ov).subrange(0, row@.len() as int) =~= row_keys(ov));
        assert(prs.subrange(0, i as int + 1).drop_last() =~= prs.subrange(0, i as int));
        assert(prs.subrange(0, i as int + 1).last() == prs[i as int]);
        i = i + 1;
    }
    assert(prs.subrange(0, prs.len() as int) =~= prs);
    let ghost hs = headers.deep_view();
    let create_sql = create_table_statement(table_name, &headers);
    let insert_sql = insert_row_statement(table_name, headers.len());
    let mut out: Vec<Vec<String>> = Vec::new();
    let mut r: usize = 0;
    while r < rows.len()
        invariant
            r <= rows@.len(),
            rows@.len() == prs.len(),
            forall|k: int| 0 <= k < rows@.len() ==> object_view((#[trigger] rows@[k])@) == prs[k],
            hs == headers.deep_view(),
            rows_view(out@) =~= Seq::new(r as nat, |k: int| row_values(prs[k], hs)),
        decreases rows@.len() - r,
    {
        let row = rows[r];
        let ghost ov = object_view(row@);
        let mut vals: Vec<String> = Vec::new();
        let mut c: usize = 0;
        while c < headers.len()
            invariant
                c <= headers@.len(),
                hs == headers.deep_view(),
                ov == object_view(row@),
                vals.deep_view() =~= row_values(ov, hs).subrange(0, c as int),
            decreases headers@.len() - c,
        {
            let ghost before = vals.deep_view();
            let x = find_cell(row, headers[c].as_str());
            assert(x@ == row_values(ov, hs)[c as int]);
            vals.push(x);
            assert(vals.deep_view() =~= before.push(x@));
            c = c + 1;
        }
        assert(row_values(ov, hs).subrange(0, hs.len() as int) =~= row_values(ov, hs));
        assert(vals.deep_view() == row_values(ov, hs));
        assert(ov == prs[r as int]);
        let ghost before = out@;
        out.push(vals);
        assert(rows_view(out@) =~= rows_view(before).push(row_values(prs[r as int], hs)));
        r = r + 1;
    }
    Ok(TableLoad { create_sql, insert_sql, rows: out })
}

/// Reads a downloaded JSON resource's bytes and loads it as a table: what
/// `json_load_result` gives for what serde_json makes of the bytes.
pub fn json_resource_load(bytes: &[u8], table_name: &str) -> (r: Result<TableLoad, OpenEyesError>)
    ensures
        json_load_result(json_resource_payload(bytes@), table_name@, r),
{
    let parsed = read_json_payload(bytes);
    json_table_load(&parsed, table_name)
}

/// The column names of a JSON resource are distinct and cover every key:
/// each key of each row sanitizes to one of them.
pub proof fn lemma_first_occurrences_distinct(xs: Seq<Seq<char>>)
    ensures
        forall|i: int, j: int|
            0 <= i < j < first_occurrences(xs).len() ==> first_occurrences(xs)[i]
                != first_occurrences(xs)[j],
        forall|k: int| 0 <= k < xs.len() ==> first_occurrences(xs).contains(#[trigger] xs[k]),
        forall|k: int|
            0 <= k < first_occurrences(xs).len() ==> xs.contains(#[trigger] first_occurrences(xs)[k]),
    decreases xs.len(),
{
    if xs.len() > 0 {
        let p = xs.drop_last();
        lemma_first_occurrences_distinct(p);
        let prev = first_occurrences(p);
        let x = xs.last();
        assert forall|k: int| 0 <= k < xs.len() implies first_occurrences(xs).contains(
            #[trigger] xs[k],
        ) by {
            if k < xs.len() - 1 {
                assert(p[k] == xs[k]);
                assert(prev.contains(p[k]));
                if !prev.contains(x) {
                    let m = choose|m: int| 0 <= m < prev.len() && prev[m] == p[k];
                    assert(first_occurrences(xs)[m] == xs[k]);
                }
            } else {
                if !prev.contains(x) {
                    assert(first_occurrences(xs)[prev.len() as int] == x);
                }
            }
        }
        assert forall|k: int| 0 <= k < first_occurrences(xs).len() implies xs.contains(
            #[trigger] first_occurrences(xs)[k],
        ) by {
            if k < prev.len() {
                assert(first_occurrences(xs)[k] == prev[k]);
                assert(p.contains(prev[k]));
                let m = choose|m: int| 0 <= m < p.len() && p[m] == prev[k];
                assert(xs[m] == prev[k]);
            } else {
                assert(xs[xs.len() - 1] == x);
            }
        }
    }
}

// ---------------------------------------------------------------------------
// Resource bookkeeping
// ---------------------------------------------------------------------------

/// Calls `serde_json::to_string` on a list of strings. Its compact writer
/// puts `[`, the strings separated by `,`, and `]`, each string quoted and
/// escaped as `json_string_text` says; writing strings into memory does not
/// fail.
#[verifier::external_body]
pub(crate) fn write_json_strings(items: &Vec<String>) -> (r: Option<String>)
    ensures
        match r {
            Some(t) => t@ == json_string_list(items.deep_view()),
            None => false,
        },
{
    serde_json::to_string(items).ok()
}

/// The JSON text of a list of strings (`[]` where it could not be written,
/// which does not happen).
pub fn json_list_text(items: &Vec<String>) -> (r: String)
    ensures
        r@ == json_string_list(items.deep_view()),
{
    match write_json_strings(items) {
        Some(t) => t,
        None => "[]".to_owned(),
    }
}

/// The statement that lists a table's columns in SQLite.
pub fn table_columns_query(table_name: &str) -> (r: String)
    ensures
        r@ == "PRAGMA table_info("@ + table_name@ + ")"@,
{
    let mut r = concat2("PRAGMA table_info(", table_name);
    r.append(")");
    r
}

/// The statement that marks a resource as loaded into `table_name`.
pub open spec fn loaded_status_sql(
    id: Seq<char>,
    table_name: Seq<char>,
    row_count: i64,
    columns: Seq<Seq<char>>,
) -> Seq<char> {
    "UPDATE oe_resources SET download_status = 'loaded', table_name = '"@ + sql_escape(table_name)
        + "', row_count = "@ + decimal_int(row_count as int) + ", column_names = '"@ + sql_escape(
        json_string_list(columns),
    ) + "' WHERE id = '"@ + sql_escape(id) + "'"@
}

/// The statement that marks a resource as loaded, with its row count and the
/// JSON list of its column names.
pub fn loaded_status_statement(id: &str, table_name: &str, row_count: i64, columns: &Vec<String>) -> (r:
    String)
    ensures
        r@ == loaded_status_sql(id@, table_name@, row_count, columns.deep_view()),
{
    let cols_json = json_list_text(columns);
    let mut r = "UPDATE oe_resources SET download_status = 'loaded', table_name = '".to_owned();
    r.append(escape_sql(table_name).as_str());
    r.append("', row_count = ");
    r.append(i64_to_decimal(row_count).as_str());
    r.append(", column_names = '");
    r.append(escape_sql(cols_json.as_str()).as_str());
    r.append("' WHERE id = '");
    r.append(escape_sql(id).as_str());
    r.append("'");
    r
}

/// The statement that marks a resource as failed, with the error's text.
pub fn error_status_statement(id: &str, error: &str) -> (r: String)
    ensures
        r@ == "UPDATE oe_resources SET download_status = 'error', error_message = '"@ + sql_escape(
            error@,
        ) + "' WHERE id = '"@ + sql_escape(id@) + "'"@,
{
    let mut r = "UPDATE oe_resources SET download_status = 'error', error_message = '".to_owned();
    r.append(escape_sql(error).as_str());
    r.append("' WHERE id = '");
    r.append(escape_sql(id).as_str());
    r.append("'");
    r
}

} // verus!
