use open_eyes::models::{ChartConfig, ChartType, ChatResponse, Dataset, OverviewStats, Resource};

#[test]
fn test_chart_type_default() {
    let ct = ChartType::default();
    assert_eq!(ct, ChartType::NoChart);
}

#[test]
fn test_chat_response_default() {
    let resp = ChatResponse::default();
    assert!(resp.summary.is_empty());
    assert_eq!(resp.chart_type, ChartType::NoChart);
    assert!(resp.data.is_empty());
    assert!(resp.sql.is_none());
}

#[test]
fn test_overview_stats_default() {
    let stats = OverviewStats::default();
    assert_eq!(stats.total_datasets, 0);
    assert_eq!(stats.total_tables, 0);
    assert_eq!(stats.total_rows, 0);
}

#[test]
fn test_dataset_default() {
    let ds = Dataset::default();
    assert!(ds.id.is_empty());
    assert!(ds.title.is_empty());
    assert!(ds.categories.is_empty());
    assert!(ds.tags.is_empty());
}

#[test]
fn resource_default_is_empty() {
    let r = Resource::default();
    assert!(r.id.is_empty());
    assert!(r.row_count.is_none());
    assert!(r.column_names.is_empty());
    assert!(r.download_status.is_empty());
}

#[test]
fn chart_config_default_is_empty() {
    let c = ChartConfig::default();
    assert!(c.title.is_empty());
    assert!(c.series_field.is_none());
}

#[test]
fn chart_type_names_round_trip() {
    let all = [
        ChartType::Bar,
        ChartType::Line,
        ChartType::Pie,
        ChartType::Scatter,
        ChartType::Table,
        ChartType::NoChart,
    ];
    let names = ["bar", "line", "pie", "scatter", "table", "none"];
    for (t, n) in all.iter().zip(names.iter()) {
        assert_eq!(t.name(), *n);
        assert_eq!(ChartType::from_name(n), Some(*t));
    }
    assert_eq!(ChartType::from_name("Bar"), None);
    assert_eq!(ChartType::from_name(""), None);
}
