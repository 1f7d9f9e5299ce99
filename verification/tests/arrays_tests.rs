use open_eyes::arrays::{
    clean_piece, json_array_or_bracket_items, parse_array_str, parse_duckdb_array_string,
    parse_json_array_string,
};

fn strings(v: &[&str]) -> Vec<String> {
    v.iter().map(|s| s.to_string()).collect()
}

#[test]
fn parses_duckdb_lists() {
    assert_eq!(parse_duckdb_array_string("[col1, col2, col3]"), strings(&["col1", "col2", "col3"]));
    assert_eq!(parse_duckdb_array_string("  [a]  "), strings(&["a"]));
    assert_eq!(parse_duckdb_array_string("[]"), Vec::<String>::new());
    assert_eq!(parse_duckdb_array_string(""), Vec::<String>::new());
    assert_eq!(parse_duckdb_array_string("[ , ,]"), Vec::<String>::new());
    assert_eq!(parse_duckdb_array_string("['x', \"y\"]"), strings(&["x", "y"]));
    assert_eq!(parse_duckdb_array_string("a,b"), strings(&["a", "b"]));
    assert_eq!(parse_array_str("[health, society]"), strings(&["health", "society"]));
}

#[test]
fn cleans_pieces() {
    assert_eq!(clean_piece("  'a b'  "), "a b");
    assert_eq!(clean_piece("\"'q'\""), "'q'");
    assert_eq!(clean_piece(" "), "");
}

#[test]
fn parses_json_lists_with_fallback() {
    assert_eq!(parse_json_array_string("[\"col_a\", \"col_b\"]"), strings(&["col_a", "col_b"]));
    assert_eq!(parse_json_array_string("[\" spaced \"]"), strings(&[" spaced "]));
    assert_eq!(parse_json_array_string("[a, b]"), strings(&["a", "b"]));
    assert_eq!(parse_json_array_string("[]"), Vec::<String>::new());
    assert_eq!(
        json_array_or_bracket_items("[x, y]", Some(strings(&["z"]))),
        strings(&["z"])
    );
    assert_eq!(json_array_or_bracket_items("[x, y]", None), strings(&["x", "y"]));
}

#[test]
fn rendered_lists_read_back() {
    let items = strings(&["year", "population", "city"]);
    let rendered = format!("[{}]", items.join(", "));
    assert_eq!(parse_duckdb_array_string(&rendered), items);
}

#[test]
fn json_lists_read_back() {
    let names = strings(&["year", "it's", "a,b", "quote\"d", "back\\slash", "line\nbreak", "\u{1}", ""]);
    let text = open_eyes::ingest::json_list_text(&names);
    assert_eq!(parse_json_array_string(&text), names);

    let tags = strings(&["berlin", "open data", " spaced", "Straße"]);
    let text = open_eyes::ingest::json_list_text(&tags);
    assert_eq!(text, "[\"berlin\",\"open data\",\" spaced\",\"Straße\"]");
    assert_eq!(parse_array_str(&text), tags);
}
