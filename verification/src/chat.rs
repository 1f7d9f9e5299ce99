//! Answering a question in the chat: the sequence of steps from saving the
//! question to saving the answer, as a state machine. The caller performs
//! each action (database work, model calls, chart building) and reports its
//! outcome as the next event.
use vstd::prelude::*;
use vstd::string::*;

use crate::models::{chart_type_name, ChartConfig, ChartType, ColumnSchema, TableInfo};
use crate::text::{concat2, sql_escape, escape_sql, str_equal};

verus! {

/// Where a question's answering stands.
#[derive(Debug, Clone, Copy, PartialEq, Eq, Structural)]
pub enum AskStage {
    Start,
    SavingQuestion,
    LoadingTables,
    SelectingTables,
    LoadingSchemas,
    GeneratingSql,
    RunningQuery,
    Summarizing,
    BuildingChart,
    SavingAnswer,
    Done,
}

/// The answer handed back to the user: the model's summary, the chart type
/// as its JSON text, the chart option, and the query (the query's rows are
/// kept by the caller).
#[derive(Debug, Clone)]
pub struct AskAnswer {
    pub summary: String,
    pub chart_type: String,
    pub chart_option_json: String,
    pub sql: String,
}

/// The outcome the caller reports for the last action.
pub enum AskEvent {
    /// Start answering.
    Begin,
    /// A statement ran, or failed with the text of its error.
    Executed(Result<usize, String>),
    /// The loaded tables.
    TableInfos(Result<Vec<TableInfo>, String>),
    /// The tables the model picked.
    TablesSelected(Result<Vec<String>, String>),
    /// The column schemas of the picked tables.
    Schemas(Result<Vec<(String, Vec<ColumnSchema>)>, String>),
    /// The model's query.
    SqlGenerated(Result<String, String>),
    /// The query ran (its rows are kept by the caller).
    QueryRan(Result<(), String>),
    /// The model's summary, chart type and chart settings.
    Summarized(Result<(String, ChartType, Option<ChartConfig>), String>),
    /// The chart option built from the settings and the rows.
    ChartBuilt(String),
}

/// What the caller is to do next.
pub enum AskAction {
    /// Run a statement.
    Execute(String),
    /// Load the table infos.
    LoadTableInfos,
    /// Ask the model to pick tables among these.
    SelectTables(Vec<TableInfo>),
    /// Load the column schemas of these tables.
    LoadSchemas(Vec<String>),
    /// Ask the model for a query over these schemas.
    GenerateSql(Vec<(String, Vec<ColumnSchema>)>),
    /// Run this query.
    RunQuery(String),
    /// Ask the model to summarize the rows of this query.
    Summarize(String),
    /// Build the chart option of this type and these settings from the rows.
    BuildChart(ChartType, ChartConfig),
    /// Hand this result back; an error carries its message.
    Finish(Result<AskAnswer, String>),
}

/// The state of one question being answered.
pub struct AskSession {
    pub question: String,
    pub session_id: String,
    pub language: String,
    pub stage: AskStage,
    pub sql: String,
    pub summary: String,
    pub chart_type: ChartType,
    pub chart_option_json: String,
}

/// The statement that saves the user's question.
pub open spec fn user_message_sql(session_id: Seq<char>, question: Seq<char>) -> Seq<char> {
    "INSERT INTO oe_chat_messages (session_id, role, content) VALUES ('"@ + sql_escape(session_id)
        + "', 'user', '"@ + sql_escape(question) + "')"@
}

/// The statement that saves the assistant's answer.
pub open spec fn assistant_message_sql(
    session_id: Seq<char>,
    summary: Seq<char>,
    sql: Seq<char>,
    chart: Seq<char>,
) -> Seq<char> {
    "INSERT INTO oe_chat_messages (session_id, role, content, sql_query, chart_spec) VALUES ('"@
        + sql_escape(session_id) + "', 'assistant', '"@ + sql_escape(summary) + "', '"@
        + sql_escape(sql) + "', '"@ + sql_escape(chart) + "')"@
}

/// The reply when no tables have been loaded yet.
pub open spec fn no_tables_text(language: Seq<char>) -> Seq<char> {
    if language == "de"@ {
        "Keine Datentabellen verfügbar. Bitte führen Sie zuerst die Datenaufnahme aus."@
    } else {
        "No data tables available. Please run the ingestion pipeline first."@
    }
}

/// The reply when the model picks no table.
pub open spec fn no_relevant_tables_text(language: Seq<char>) -> Seq<char> {
    if language == "de"@ {
        "Keine relevanten Tabellen für Ihre Frage gefunden."@
    } else {
        "No relevant tables found for your question."@
    }
}

/// The JSON text of a chart type, e.g. `"bar"` with its quotes.
pub open spec fn chart_type_json(t: ChartType) -> Seq<char> {
    seq!['"'] + chart_type_name(t) + seq!['"']
}

/// An answer that carries only a summary; everything else is empty.
pub open spec fn summary_only(a: AskAnswer, summary: Seq<char>) -> bool {
    a.summary@ == summary && a.chart_type@.len() == 0 && a.chart_option_json@.len() == 0
        && a.sql@.len() == 0
}

/// Whether `event` is the kind of outcome the session is waiting for.
pub open spec fn expects(stage: AskStage, event: AskEvent) -> bool {
    match stage {
        AskStage::Start => event is Begin,
        AskStage::SavingQuestion => event is Executed,
        AskStage::LoadingTables => event is TableInfos,
        AskStage::SelectingTables => event is TablesSelected,
        AskStage::LoadingSchemas => event is Schemas,
        AskStage::GeneratingSql => event is SqlGenerated,
        AskStage::RunningQuery => event is QueryRan,
        AskStage::Summarizing => event is Summarized,
        AskStage::BuildingChart => event is ChartBuilt,
        AskStage::SavingAnswer => event is Executed,
        AskStage::Done => false,
    }
}

fn answer_with_summary(summary: &str) -> (r: AskAnswer)
    ensures
        summary_only(r, summary@),
{
    AskAnswer {
        summary: summary.to_owned(),
        chart_type: String::new(),
        chart_option_json: String::new(),
        sql: String::new(),
    }
}

fn chart_type_json_text(t: ChartType) -> (r: String)
    ensures
        r@ == chart_type_json(t),
{
    let mut r = "\"".to_owned();
    r.append(t.name());
    r.append("\"");
    proof {
        reveal_strlit("\"");
    }
    assert(r@ =~= chart_type_json(t));
    r
}

impl AskSession {
    /// A session for a question asked in a chat session, in a language.
    pub fn new(question: String, session_id: String, language: String) -> (r: AskSession)
        ensures
            r.question == question,
            r.session_id == session_id,
            r.language == language,
            r.stage == AskStage::Start,
    {
        AskSession {
            question,
            session_id,
            language,
            stage: AskStage::Start,
            sql: String::new(),
            summary: String::new(),
            chart_type: ChartType::NoChart,
            chart_option_json: String::new(),
        }
    }

    fn is_german(&self) -> (b: bool)
        ensures
            b == (self.language@ == "de"@),
    {
        str_equal(self.language.as_str(), "de")
    }

    fn finish(&mut self, r: Result<AskAnswer, String>) -> (a: AskAction)
        ensures
            final(self).stage == AskStage::Done,
            a == AskAction::Finish(r),
            final(self).question == old(self).question,
            final(self).session_id == old(self).session_id,
            final(self).language == old(self).language,
            final(self).sql == old(self).sql,
            final(self).summary == old(self).summary,
            final(self).chart_type == old(self).chart_type,
            final(self).chart_option_json == old(self).chart_option_json,
    {
        self.stage = AskStage::Done;
        AskAction::Finish(r)
    }

    fn assistant_statement(&self) -> (r: String)
        ensures
            r@ == assistant_message_sql(
                self.session_id@,
                self.summary@,
                self.sql@,
                self.chart_option_json@,
            ),
    {
        let mut r = concat2(
            "INSERT INTO oe_chat_messages (session_id, role, content, sql_query, chart_spec) VALUES ('",
            escape_sql(self.session_id.as_str()).as_str(),
        );
        r.append("', 'assistant', '");
        r.append(escape_sql(self.summary.as_str()).as_str());
        r.append("', '");
        r.append(escape_sql(self.sql.as_str()).as_str());
        r.append("', '");
        r.append(escape_sql(self.chart_option_json.as_str()).as_str());
        r.append("')");
        r
    }

    /// Takes in the outcome of the last action and says what to do next.
    ///
    /// The question is saved first; then the loaded tables are read (none:
    /// the answer says so, without asking the model); the model picks tables
    /// (none: the answer says so); their schemas are read; the model writes a
    /// query; the query runs; the model summarizes; the chart option is built
    /// when the model gave chart settings (`{}` otherwise); the answer is
    /// saved and handed back. A failing step ends with its error, prefixed by
    /// the step's name for model calls and for the query.
    pub fn step(&mut self, event: AskEvent) -> (action: AskAction)
        requires
            expects(old(self).stage, event),
        ensures
            final(self).question == old(self).question,
            final(self).session_id == old(self).session_id,
            final(self).language == old(self).language,
            match (old(self).stage, event) {
                (AskStage::Start, AskEvent::Begin) => {
                    &&& final(self).stage == AskStage::SavingQuestion
                    &&& action matches AskAction::Execute(s)
                    &&& s@ == user_message_sql(old(self).session_id@, old(self).question@)
                },
                (AskStage::SavingQuestion, AskEvent::Executed(r)) => match r {
                    Ok(_) => final(self).stage == AskStage::LoadingTables && action is LoadTableInfos,
                    Err(e) => final(self).stage == AskStage::Done && action == AskAction::Finish(Err(e)),
                },
                (AskStage::LoadingTables, AskEvent::TableInfos(r)) => match r {
                    Ok(infos) => if infos@.len() == 0 {
                        &&& final(self).stage == AskStage::Done
                        &&& action matches AskAction::Finish(Ok(a))
                        &&& summary_only(a, no_tables_text(old(self).language@))
                    } else {
                        final(self).stage == AskStage::SelectingTables && action
                            == AskAction::SelectTables(infos)
                    },
                    Err(e) => final(self).stage == AskStage::Done && action == AskAction::Finish(Err(e)),
                },
                (AskStage::SelectingTables, AskEvent::TablesSelected(r)) => match r {
                    Ok(tables) => if tables@.len() == 0 {
                        &&& final(self).stage == AskStage::Done
                        &&& action matches AskAction::Finish(Ok(a))
                        &&& summary_only(a, no_relevant_tables_text(old(self).language@))
                    } else {
                        final(self).stage == AskStage::LoadingSchemas && action
                            == AskAction::LoadSchemas(tables)
                    },
                    Err(e) => {
                        &&& final(self).stage == AskStage::Done
                        &&& action matches AskAction::Finish(Err(m))
                        &&& m@ == "Table selection failed: "@ + e@
                    },
                },
                (AskStage::LoadingSchemas, AskEvent::Schemas(r)) => match r {
                    Ok(s) => final(self).stage == AskStage::GeneratingSql && action
                        == AskAction::GenerateSql(s),
                    Err(e) => final(self).stage == AskStage::Done && action == AskAction::Finish(Err(e)),
                },
                (AskStage::GeneratingSql, AskEvent::SqlGenerated(r)) => match r {
                    Ok(sql) => {
                        &&& final(self).stage == AskStage::RunningQuery
                        &&& final(self).sql == sql
                        &&& action matches AskAction::RunQuery(q)
                        &&& q@ == sql@
                    },
                    Err(e) => {
                        &&& final(self).stage == AskStage::Done
                        &&& action matches AskAction::Finish(Err(m))
                        &&& m@ == "SQL generation failed: "@ + e@
                    },
                },
                (AskStage::RunningQuery, AskEvent::QueryRan(r)) => match r {
                    Ok(_) => {
                        &&& final(self).stage == AskStage::Summarizing
                        &&& final(self).sql == old(self).sql
                        &&& action matches AskAction::Summarize(q)
                        &&& q@ == old(self).sql@
                    },
                    Err(e) => {
                        &&& final(self).stage == AskStage::Done
                        &&& action matches AskAction::Finish(Err(m))
                        &&& m@ == "Query failed: "@ + e@
                    },
                },
                (AskStage::Summarizing, AskEvent::Summarized(r)) => match r {
                    Ok((summary, t, config)) => {
                        &&& final(self).summary == summary
                        &&& final(self).chart_type == t
                        &&& final(self).sql == old(self).sql
                        &&& match config {
                            Some(c) => final(self).stage == AskStage::BuildingChart && action
                                == AskAction::BuildChart(t, c),
                            None => {
                                &&& final(self).stage == AskStage::SavingAnswer
                                &&& final(self).chart_option_json@ == "{}"@
                                &&& action matches AskAction::Execute(s)
                                &&& s@ == assistant_message_sql(
                                    old(self).session_id@,
                                    summary@,
                                    old(self).sql@,
                                    "{}"@,
                                )
                            },
                        }
                    },
                    Err(e) => {
                        &&& final(self).stage == AskStage::Done
                        &&& action matches AskAction::Finish(Err(m))
                        &&& m@ == "Summarization failed: "@ + e@
                    },
                },
                (AskStage::BuildingChart, AskEvent::ChartBuilt(option)) => {
                    &&& final(self).stage == AskStage::SavingAnswer
                    &&& final(self).chart_option_json == option
                    &&& final(self).summary == old(self).summary
                    &&& final(self).sql == old(self).sql
                    &&& final(self).chart_type == old(self).chart_type
                    &&& action matches AskAction::Execute(s)
                    &&& s@ == assistant_message_sql(
                        old(self).session_id@,
                        old(self).summary@,
                        old(self).sql@,
                        option@,
                    )
                },
                (AskStage::SavingAnswer, AskEvent::Executed(r)) => {
                    &&& final(self).stage == AskStage::Done
                    &&& match r {
                        Ok(_) => {
                            &&& action matches AskAction::Finish(Ok(a))
                            &&& a.summary@ == old(self).summary@
                            &&& a.chart_type@ == chart_type_json(old(self).chart_type)
                            &&& a.chart_option_json@ == old(self).chart_option_json@
                            &&& a.sql@ == old(self).sql@
                        },
                        Err(e) => action == AskAction::Finish(Err(e)),
                    }
                },
                _ => false,
            },
    {
        match event {
            AskEvent::Begin => {
                let mut s = concat2(
                    "INSERT INTO oe_chat_messages (session_id, role, content) VALUES ('",
                    escape_sql(self.session_id.as_str()).as_str(),
                );
                s.append("', 'user', '");
                s.append(escape_sql(self.question.as_str()).as_str());
                s.append("')");
                self.stage = AskStage::SavingQuestion;
                AskAction::Execute(s)
            },
            AskEvent::Executed(r) => {
                if self.stage == AskStage::SavingQuestion {
                    match r {
                        Ok(_) => {
                            self.stage = AskStage::LoadingTables;
                            AskAction::LoadTableInfos
                        },
                        Err(e) => self.finish(Err(e)),
                    }
                } else {
                    match r {
                        Ok(_) => {
                            let answer = AskAnswer {
                                summary: self.summary.clone(),
                                chart_type: chart_type_json_text(self.chart_type),
                                chart_option_json: self.chart_option_json.clone(),
                                sql: self.sql.clone(),
                            };
                            self.finish(Ok(answer))
                        },
                        Err(e) => self.finish(Err(e)),
                    }
                }
            },
            AskEvent::TableInfos(r) => match r {
                Ok(infos) => {
                    if infos.len() == 0 {
                        let text = if self.is_german() {
                            "Keine Datentabellen verfügbar. Bitte führen Sie zuerst die Datenaufnahme aus."
                        } else {
                            "No data tables available. Please run the ingestion pipeline first."
                        };
                        let a = answer_with_summary(text);
                        self.finish(Ok(a))
                    } else {
                        self.stage = AskStage::SelectingTables;
                        AskAction::SelectTables(infos)
                    }
                },
                Err(e) => self.finish(Err(e)),
            },
            AskEvent::TablesSelected(r) => match r {
                Ok(tables) => {
                    if tables.len() == 0 {
                        let text = if self.is_german() {
                            "Keine relevanten Tabellen für Ihre Frage gefunden."
                        } else {
                            "No relevant tables found for your question."
                        };
                        let a = answer_with_summary(text);
                        self.finish(Ok(a))
                    } else {
                        self.stage = AskStage::LoadingSchemas;
                        AskAction::LoadSchemas(tables)
                    }
                },
                Err(e) => self.finish(Err(concat2("Table selection failed: ", e.as_str()))),
            },
            AskEvent::Schemas(r) => match r {
                Ok(s) => {
                    self.stage = AskStage::GeneratingSql;
                    AskAction::GenerateSql(s)
                },
                Err(e) => self.finish(Err(e)),
            },
            AskEvent::SqlGenerated(r) => match r {
                Ok(sql) => {
                    let q = sql.clone();
                    self.sql = sql;
                    self.stage = AskStage::RunningQuery;
                    AskAction::RunQuery(q)
                },
                Err(e) => self.finish(Err(concat2("SQL generation failed: ", e.as_str()))),
            },
            AskEvent::QueryRan(r) => match r {
                Ok(_) => {
                    self.stage = AskStage::Summarizing;
                    AskAction::Summarize(self.sql.clone())
                },
                Err(e) => self.finish(Err(concat2("Query failed: ", e.as_str()))),
            },
            AskEvent::Summarized(r) => match r {
                Ok((summary, t, config)) => {
                    self.summary = summary;
                    self.chart_type = t;
                    match config {
                        Some(c) => {
                            self.stage = AskStage::BuildingChart;
                            AskAction::BuildChart(t, c)
                        },
                        None => {
                            self.chart_option_json = "{}".to_owned();
                            self.stage = AskStage::SavingAnswer;
                            AskAction::Execute(self.assistant_statement())
                        },
                    }
                },
                Err(e) => self.finish(Err(concat2("Summarization failed: ", e.as_str()))),
            },
            AskEvent::ChartBuilt(option) => {
                self.chart_option_json = option;
                self.stage = AskStage::SavingAnswer;
                AskAction::Execute(self.assistant_statement())
            },
        }
    }
}

} // verus!
