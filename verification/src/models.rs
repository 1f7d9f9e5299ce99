//! The records the library exchanges: chat messages and chart settings, CKAN
//! catalogue entries, and the dataset metadata kept in the store.
use vstd::prelude::*;

use crate::dashboard::JsonRow;

verus! {

// ---------------------------------------------------------------------------
// Chat
// ---------------------------------------------------------------------------

/// Chat message stored in `oe_chat_messages`.
#[derive(Debug, Clone)]
pub struct ChatMessage {
    pub id: i64,
    pub session_id: String,
    pub role: String,
    pub content: String,
    pub sql_query: Option<String>,
    pub chart_spec: Option<String>,
    pub created_at: Option<String>,
}

/// Chart type for a visualization.
#[derive(Debug, Clone, Copy, PartialEq, Eq, Structural)]
pub enum ChartType {
    Bar,
    Line,
    Pie,
    Scatter,
    Table,
    NoChart,
}

/// The lower-case name a chart type is written under.
pub open spec fn chart_type_name(t: ChartType) -> Seq<char> {
    match t {
        ChartType::Bar => "bar"@,
        ChartType::Line => "line"@,
        ChartType::Pie => "pie"@,
        ChartType::Scatter => "scatter"@,
        ChartType::Table => "table"@,
        ChartType::NoChart => "none"@,
    }
}

impl ChartType {
    /// The lower-case name this chart type is written under (`"bar"`, ...).
    pub fn name(&self) -> (r: &'static str)
        ensures
            r@ == chart_type_name(*self),
    {
        proof {
            reveal_strlit("bar");
            reveal_strlit("line");
            reveal_strlit("pie");
            reveal_strlit("scatter");
            reveal_strlit("table");
            reveal_strlit("none");
        }
        match self {
            ChartType::Bar => "bar",
            ChartType::Line => "line",
            ChartType::Pie => "pie",
            ChartType::Scatter => "scatter",
            ChartType::Table => "table",
            ChartType::NoChart => "none",
        }
    }

    /// The chart type written under `name`, if any.
    pub fn from_name(name: &str) -> (r: Option<ChartType>)
        ensures
            match r {
                Some(t) => chart_type_name(t) == name@,
                None => forall|t: ChartType| chart_type_name(t) != name@,
            },
    {
        let all = [
            ChartType::Bar,
            ChartType::Line,
            ChartType::Pie,
            ChartType::Scatter,
            ChartType::Table,
            ChartType::NoChart,
        ];
        let mut i: usize = 0;
        while i < 6
            invariant
                i <= 6,
                all@ == seq![
                    ChartType::Bar,
                    ChartType::Line,
                    ChartType::Pie,
                    ChartType::Scatter,
                    ChartType::Table,
                    ChartType::NoChart,
                ],
                forall|k: int| 0 <= k < i ==> chart_type_name(all@[k]) != name@,
            decreases 6 - i,
        {
            let t = all[i];
            if crate::text::str_equal(t.name(), name) {
                return Some(t);
            }
            i = i + 1;
        }
        assert forall|t: ChartType| chart_type_name(t) != name@ by {
            match t {
                ChartType::Bar => assert(all@[0] == t),
                ChartType::Line => assert(all@[1] == t),
                ChartType::Pie => assert(all@[2] == t),
                ChartType::Scatter => assert(all@[3] == t),
                ChartType::Table => assert(all@[4] == t),
                ChartType::NoChart => assert(all@[5] == t),
            }
        }
        None
    }
}

impl Default for ChartType {
    fn default() -> (r: ChartType)
        ensures
            r == ChartType::NoChart,
    {
        ChartType::NoChart
    }
}

/// Chart configuration proposed by the language model.
#[derive(Debug, Clone)]
pub struct ChartConfig {
    pub title: String,
    pub x_field: String,
    pub y_field: String,
    pub series_field: Option<String>,
}

impl Default for ChartConfig {
    fn default() -> (r: ChartConfig)
        ensures
            r.title@.len() == 0,
            r.x_field@.len() == 0,
            r.y_field@.len() == 0,
            r.series_field is None,
    {
        ChartConfig {
            title: String::new(),
            x_field: String::new(),
            y_field: String::new(),
            series_field: None,
        }
    }
}

/// The full answer of the chat pipeline: the summary, the chart type and
/// settings, the query's rows and the query.
#[derive(Debug, Clone)]
pub struct ChatResponse {
    pub summary: String,
    pub chart_type: ChartType,
    pub chart_config: Option<ChartConfig>,
    pub data: Vec<JsonRow>,
    pub sql: Option<String>,
}

impl Default for ChatResponse {
    fn default() -> (r: ChatResponse)
        ensures
            r.summary@.len() == 0,
            r.chart_type == ChartType::NoChart,
            r.chart_config is None,
            r.data@.len() == 0,
            r.sql is None,
    {
        ChatResponse {
            summary: String::new(),
            chart_type: ChartType::NoChart,
            chart_config: None,
            data: Vec::new(),
            sql: None,
        }
    }
}

/// The model's table selection.
#[derive(Debug, Clone)]
pub struct TableSelectionResponse {
    pub tables: Vec<String>,
}

/// The model's SQL query.
#[derive(Debug, Clone)]
pub struct SqlGenerationResponse {
    pub sql: String,
}

/// The model's summary and chart recommendation.
#[derive(Debug, Clone)]
pub struct SummarizationResponse {
    pub summary: String,
    pub chart_type: ChartType,
    pub chart_config: Option<ChartConfig>,
}

// ---------------------------------------------------------------------------
// CKAN catalogue
// ---------------------------------------------------------------------------

/// CKAN API response wrapper.
#[derive(Debug, Clone)]
pub struct CkanResponse<T> {
    pub success: bool,
    pub result: T,
}

/// CKAN `package_search` result.
#[derive(Debug, Clone)]
pub struct CkanSearchResult {
    pub count: u64,
    pub results: Vec<CkanPackage>,
}

/// CKAN package (dataset).
#[derive(Debug, Clone)]
pub struct CkanPackage {
    pub id: String,
    pub title: Option<String>,
    pub notes: Option<String>,
    pub organization: Option<CkanOrganization>,
    pub groups: Option<Vec<CkanGroup>>,
    pub tags: Option<Vec<CkanTag>>,
    pub license_title: Option<String>,
    pub url: Option<String>,
    pub metadata_created: Option<String>,
    pub metadata_modified: Option<String>,
    pub resources: Option<Vec<CkanResource>>,
}

#[derive(Debug, Clone)]
pub struct CkanOrganization {
    pub name: String,
    pub title: Option<String>,
}

#[derive(Debug, Clone)]
pub struct CkanGroup {
    pub name: String,
    pub title: Option<String>,
}

#[derive(Debug, Clone)]
pub struct CkanTag {
    pub name: String,
}

/// CKAN resource (one downloadable file of a package).
#[derive(Debug, Clone)]
pub struct CkanResource {
    pub id: String,
    pub name: Option<String>,
    pub format: Option<String>,
    pub url: String,
}

// ---------------------------------------------------------------------------
// Stored metadata
// ---------------------------------------------------------------------------

/// Dataset metadata stored in `oe_datasets`.
#[derive(Debug, Clone)]
pub struct Dataset {
    pub id: String,
    pub title: String,
    pub title_de: Option<String>,
    pub description: Option<String>,
    pub description_de: Option<String>,
    pub organization: Option<String>,
    pub categories: Vec<String>,
    pub tags: Vec<String>,
    pub license: Option<String>,
    pub source_portal: String,
    pub ckan_url: Option<String>,
    pub created_at: Option<String>,
    pub modified_at: Option<String>,
    pub ingested_at: Option<String>,
}

impl Default for Dataset {
    fn default() -> (r: Dataset)
        ensures
            r.id@.len() == 0,
            r.title@.len() == 0,
            r.title_de is None,
            r.description is None,
            r.description_de is None,
            r.organization is None,
            r.categories@.len() == 0,
            r.tags@.len() == 0,
            r.license is None,
            r.source_portal@.len() == 0,
            r.ckan_url is None,
            r.created_at is None,
            r.modified_at is None,
            r.ingested_at is None,
    {
        Dataset {
            id: String::new(),
            title: String::new(),
            title_de: None,
            description: None,
            description_de: None,
            organization: None,
            categories: Vec::new(),
            tags: Vec::new(),
            license: None,
            source_portal: String::new(),
            ckan_url: None,
            created_at: None,
            modified_at: None,
            ingested_at: None,
        }
    }
}

/// Resource metadata stored in `oe_resources`.
#[derive(Debug, Clone)]
pub struct Resource {
    pub id: String,
    pub dataset_id: String,
    pub name: Option<String>,
    pub format: Option<String>,
    pub url: String,
    pub table_name: Option<String>,
    pub row_count: Option<i64>,
    pub column_names: Vec<String>,
    pub download_status: String,
    pub error_message: Option<String>,
    pub ingested_at: Option<String>,
}

impl Default for Resource {
    fn default() -> (r: Resource)
        ensures
            r.id@.len() == 0,
            r.dataset_id@.len() == 0,
            r.name is None,
            r.format is None,
            r.url@.len() == 0,
            r.table_name is None,
            r.row_count is None,
            r.column_names@.len() == 0,
            r.download_status@.len() == 0,
            r.error_message is None,
            r.ingested_at is None,
    {
        Resource {
            id: String::new(),
            dataset_id: String::new(),
            name: None,
            format: None,
            url: String::new(),
            table_name: None,
            row_count: None,
            column_names: Vec::new(),
            download_status: String::new(),
            error_message: None,
            ingested_at: None,
        }
    }
}

/// Overview statistics for the home page.
#[derive(Debug, Clone)]
pub struct OverviewStats {
    pub total_datasets: u64,
    pub total_tables: u64,
    pub total_rows: u64,
    pub total_resources: u64,
}

impl Default for OverviewStats {
    fn default() -> (r: OverviewStats)
        ensures
            r.total_datasets == 0,
            r.total_tables == 0,
            r.total_rows == 0,
            r.total_resources == 0,
    {
        OverviewStats { total_datasets: 0, total_tables: 0, total_rows: 0, total_resources: 0 }
    }
}

/// Category count for display.
#[derive(Debug, Clone)]
pub struct CategoryCount {
    pub name: String,
    pub count: u64,
}

/// Table info for the model's table selection.
#[derive(Debug, Clone)]
pub struct TableInfo {
    pub table_name: String,
    pub dataset_title: String,
    pub description: Option<String>,
    pub row_count: i64,
    pub column_names: Vec<String>,
}

/// Column schema for the SQL generation prompt.
#[derive(Debug, Clone)]
pub struct ColumnSchema {
    pub name: String,
    pub data_type: String,
}

} // verus!
