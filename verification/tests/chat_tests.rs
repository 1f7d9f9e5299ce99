use open_eyes::chat::{AskAction, AskEvent, AskSession, AskStage};
use open_eyes::models::{ChartConfig, ChartType, ColumnSchema, TableInfo};

fn info() -> TableInfo {
    TableInfo {
        table_name: "data_a_b".to_string(),
        dataset_title: "T".to_string(),
        description: None,
        row_count: 1,
        column_names: vec!["x".to_string()],
    }
}

#[test]
fn answers_a_question_end_to_end() {
    let mut s = AskSession::new("Was gibt's?".to_string(), "s'1".to_string(), "de".to_string());
    match s.step(AskEvent::Begin) {
        AskAction::Execute(sql) => assert_eq!(
            sql,
            "INSERT INTO oe_chat_messages (session_id, role, content) VALUES ('s''1', 'user', 'Was gibt''s?')"
        ),
        _ => panic!("expected the question to be saved"),
    }
    assert!(matches!(s.step(AskEvent::Executed(Ok(1))), AskAction::LoadTableInfos));
    match s.step(AskEvent::TableInfos(Ok(vec![info()]))) {
        AskAction::SelectTables(t) => assert_eq!(t.len(), 1),
        _ => panic!("expected table selection"),
    }
    match s.step(AskEvent::TablesSelected(Ok(vec!["data_a_b".to_string()]))) {
        AskAction::LoadSchemas(t) => assert_eq!(t, vec!["data_a_b".to_string()]),
        _ => panic!("expected schemas"),
    }
    let schemas = vec![(
        "data_a_b".to_string(),
        vec![ColumnSchema { name: "x".to_string(), data_type: "TEXT".to_string() }],
    )];
    assert!(matches!(s.step(AskEvent::Schemas(Ok(schemas))), AskAction::GenerateSql(_)));
    match s.step(AskEvent::SqlGenerated(Ok("SELECT x FROM data_a_b".to_string()))) {
        AskAction::RunQuery(q) => assert_eq!(q, "SELECT x FROM data_a_b"),
        _ => panic!("expected the query to run"),
    }
    match s.step(AskEvent::QueryRan(Ok(()))) {
        AskAction::Summarize(q) => assert_eq!(q, "SELECT x FROM data_a_b"),
        _ => panic!("expected a summary"),
    }
    let config = ChartConfig {
        title: "C".to_string(),
        x_field: "x".to_string(),
        y_field: "y".to_string(),
        series_field: None,
    };
    match s.step(AskEvent::Summarized(Ok(("Es gibt x.".to_string(), ChartType::Bar, Some(config))))) {
        AskAction::BuildChart(t, c) => {
            assert_eq!(t, ChartType::Bar);
            assert_eq!(c.title, "C");
        }
        _ => panic!("expected a chart"),
    }
    match s.step(AskEvent::ChartBuilt("{\"a\":'b'}".to_string())) {
        AskAction::Execute(sql) => assert_eq!(
            sql,
            "INSERT INTO oe_chat_messages (session_id, role, content, sql_query, chart_spec) VALUES ('s''1', 'assistant', 'Es gibt x.', 'SELECT x FROM data_a_b', '{\"a\":''b''}')"
        ),
        _ => panic!("expected the answer to be saved"),
    }
    match s.step(AskEvent::Executed(Ok(1))) {
        AskAction::Finish(Ok(a)) => {
            assert_eq!(a.summary, "Es gibt x.");
            assert_eq!(a.chart_type, "\"bar\"");
            assert_eq!(a.chart_option_json, "{\"a\":'b'}");
            assert_eq!(a.sql, "SELECT x FROM data_a_b");
        }
        _ => panic!("expected the answer"),
    }
    assert_eq!(s.stage, AskStage::Done);
}

#[test]
fn stops_early_without_tables() {
    let mut s = AskSession::new("q".to_string(), "s".to_string(), "en".to_string());
    s.step(AskEvent::Begin);
    s.step(AskEvent::Executed(Ok(1)));
    match s.step(AskEvent::TableInfos(Ok(Vec::new()))) {
        AskAction::Finish(Ok(a)) => {
            assert_eq!(a.summary, "No data tables available. Please run the ingestion pipeline first.");
            assert!(a.chart_type.is_empty() && a.sql.is_empty() && a.chart_option_json.is_empty());
        }
        _ => panic!("expected an early answer"),
    }

    let mut s = AskSession::new("q".to_string(), "s".to_string(), "de".to_string());
    s.step(AskEvent::Begin);
    s.step(AskEvent::Executed(Ok(1)));
    s.step(AskEvent::TableInfos(Ok(vec![info()])));
    match s.step(AskEvent::TablesSelected(Ok(Vec::new()))) {
        AskAction::Finish(Ok(a)) => {
            assert_eq!(a.summary, "Keine relevanten Tabellen für Ihre Frage gefunden.")
        }
        _ => panic!("expected an early answer"),
    }
}

#[test]
fn reports_failing_steps() {
    let mut s = AskSession::new("q".to_string(), "s".to_string(), "en".to_string());
    s.step(AskEvent::Begin);
    s.step(AskEvent::Executed(Ok(1)));
    s.step(AskEvent::TableInfos(Ok(vec![info()])));
    match s.step(AskEvent::TablesSelected(Err("timeout".to_string()))) {
        AskAction::Finish(Err(m)) => assert_eq!(m, "Table selection failed: timeout"),
        _ => panic!("expected an error"),
    }

    let mut s = AskSession::new("q".to_string(), "s".to_string(), "en".to_string());
    s.step(AskEvent::Begin);
    match s.step(AskEvent::Executed(Err("locked".to_string()))) {
        AskAction::Finish(Err(m)) => assert_eq!(m, "locked"),
        _ => panic!("expected an error"),
    }
}

#[test]
fn saves_answers_without_chart_settings() {
    let mut s = AskSession::new("q".to_string(), "s".to_string(), "en".to_string());
    s.step(AskEvent::Begin);
    s.step(AskEvent::Executed(Ok(1)));
    s.step(AskEvent::TableInfos(Ok(vec![info()])));
    s.step(AskEvent::TablesSelected(Ok(vec!["t".to_string()])));
    s.step(AskEvent::Schemas(Ok(Vec::new())));
    s.step(AskEvent::SqlGenerated(Ok("SELECT 1".to_string())));
    match s.step(AskEvent::QueryRan(Err("no such table".to_string()))) {
        AskAction::Finish(Err(m)) => assert_eq!(m, "Query failed: no such table"),
        _ => panic!("expected an error"),
    }

    let mut s = AskSession::new("q".to_string(), "s".to_string(), "en".to_string());
    s.step(AskEvent::Begin);
    s.step(AskEvent::Executed(Ok(1)));
    s.step(AskEvent::TableInfos(Ok(vec![info()])));
    s.step(AskEvent::TablesSelected(Ok(vec!["t".to_string()])));
    s.step(AskEvent::Schemas(Ok(Vec::new())));
    s.step(AskEvent::SqlGenerated(Ok("SELECT 1".to_string())));
    s.step(AskEvent::QueryRan(Ok(())));
    match s.step(AskEvent::Summarized(Ok(("S".to_string(), ChartType::NoChart, None)))) {
        AskAction::Execute(sql) => assert!(sql.ends_with("'S', 'SELECT 1', '{}')")),
        _ => panic!("expected the answer to be saved"),
    }
    match s.step(AskEvent::Executed(Ok(1))) {
        AskAction::Finish(Ok(a)) => {
            assert_eq!(a.chart_type, "\"none\"");
            assert_eq!(a.chart_option_json, "{}");
        }
        _ => panic!("expected the answer"),
    }
}
