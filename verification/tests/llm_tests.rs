use open_eyes::errors::OpenEyesError;
use open_eyes::llm::{
    authorization_header, completions_url, data_preview_text, endpoint_error, generate_sql_prompt,
    missing_content_error, normalize_base_url, parse_failure, select_tables_prompt,
    reply_content, strip_code_fences, summarize_prompt, table_catalogue_text,
};
use open_eyes::models::{ColumnSchema, TableInfo};

fn table() -> TableInfo {
    TableInfo {
        table_name: "data_ds1_r1".to_string(),
        dataset_title: "Berlin Population Data".to_string(),
        description: None,
        row_count: 3,
        column_names: vec!["year".to_string(), "city".to_string()],
    }
}

#[test]
fn builds_table_selection_prompt() {
    let p = select_tables_prompt("Wie viele?", &[table()], "de");
    assert_eq!(
        p.system,
        "You are a data analyst assistant. Given a user question and a list of available data tables, select the 3-5 most relevant tables.\nRespond ONLY with valid JSON: {\"tables\": [\"table_name1\", \"table_name2\", ...]}\nThe user's UI language is de, but always use the exact table names as listed."
    );
    assert_eq!(
        p.user,
        "Question: Wie viele?\n\nAvailable tables:\n- data_ds1_r1: Berlin Population Data (3rows, columns: year, city)"
    );
    let two = table_catalogue_text(&[table(), table()]);
    assert_eq!(two.lines().count(), 2);
}

#[test]
fn builds_sql_prompt() {
    let schemas = vec![(
        "t".to_string(),
        vec![
            ColumnSchema { name: "a".to_string(), data_type: "TEXT".to_string() },
            ColumnSchema { name: "b".to_string(), data_type: "INTEGER".to_string() },
        ],
    )];
    let p = generate_sql_prompt("Q", &schemas, "en");
    assert!(p.system.starts_with("You are a DuckDB SQL expert."));
    assert!(p.system.ends_with("- The user's UI language is en\nRespond ONLY with valid JSON: {\"sql\": \"SELECT ...\"}"));
    assert_eq!(p.user, "Question: Q\n\nTable schemas:\nTABLE t:\n  a TEXT,\n  b INTEGER");
}

#[test]
fn builds_summary_prompt() {
    let rows: Vec<String> = (0..12).map(|i| format!("{{\"n\":{i}}}")).collect();
    let preview = data_preview_text(&rows);
    assert!(preview.ends_with("] (showing first 10 of 12 rows)"));
    assert!(preview.starts_with("[{\"n\":0},{\"n\":1}"));
    assert!(!preview.contains("{\"n\":10}"));
    let few = vec!["{\"a\":1}".to_string(), "{\"a\":2}".to_string()];
    assert_eq!(data_preview_text(&few), "[{\"a\":1},{\"a\":2}]");
    assert_eq!(data_preview_text(&Vec::new()), "[]");
    let p = summarize_prompt("Q", "SELECT 1", &few, "de");
    assert!(p.system.contains("\nRespond in German.\n"));
    assert_eq!(p.user, "Question: Q\nSQL: SELECT 1\nResults:\n[{\"a\":1},{\"a\":2}]");
    let p = summarize_prompt("Q", "SELECT 1", &few, "en");
    assert!(p.system.contains("\nRespond in English.\n"));
}

#[test]
fn talks_to_the_endpoint() {
    assert_eq!(normalize_base_url("http://localhost:11434/v1//"), "http://localhost:11434/v1");
    assert_eq!(normalize_base_url("///"), "");
    assert_eq!(completions_url("https://api.openai.com/v1"), "https://api.openai.com/v1/chat/completions");
    assert_eq!(authorization_header(""), None);
    assert_eq!(authorization_header("k"), Some("Bearer k".to_string()));
    match endpoint_error("500 Internal Server Error", "boom") {
        OpenEyesError::Llm(m) => assert_eq!(m, "LLM API returned 500 Internal Server Error: boom"),
        other => panic!("unexpected {other:?}"),
    }
    match missing_content_error() {
        OpenEyesError::Llm(m) => assert_eq!(m, "No content in LLM response"),
        other => panic!("unexpected {other:?}"),
    }
    match parse_failure("SQL", "EOF", "{") {
        OpenEyesError::Llm(m) => assert_eq!(m, "Failed to parse SQL: EOF\nResponse: {"),
        other => panic!("unexpected {other:?}"),
    }
}

#[test]
fn strips_code_fences() {
    assert_eq!(strip_code_fences("```json\n{\"sql\": \"SELECT 1\"}\n```"), "{\"sql\": \"SELECT 1\"}");
    assert_eq!(strip_code_fences("  ```\n{}\n```  "), "{}");
    assert_eq!(strip_code_fences(" {\"a\":1} "), "{\"a\":1}");
    assert_eq!(strip_code_fences("```"), "");
}

#[test]
fn reply_content_strips_fences_or_reports_missing_content() {
    assert_eq!(reply_content(Some("```json\n{\"sql\": \"SELECT 1\"}\n```")).unwrap(), "{\"sql\": \"SELECT 1\"}");
    assert_eq!(
        reply_content(None).unwrap_err(),
        OpenEyesError::Llm("No content in LLM response".to_string())
    );
}
