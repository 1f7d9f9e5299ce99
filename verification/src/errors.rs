//! Error values of the library and the dashboard, with the messages they are
//! reported under.
use vstd::prelude::*;
use vstd::string::*;

verus! {

/// Errors of the core library. Each variant carries the text of its cause.
#[derive(Debug, Clone, PartialEq, Eq)]
pub enum OpenEyesError {
    DuckDb(String),
    Sqlite(String),
    Http(String),
    Json(String),
    Config(String),
    Llm(String),
    Ingestion(String),
    Other(String),
}

/// The prefix each kind of error is reported with.
pub open spec fn open_eyes_error_prefix(e: OpenEyesError) -> Seq<char> {
    match e {
        OpenEyesError::DuckDb(_) => "DuckDB error: "@,
        OpenEyesError::Sqlite(_) => "SQLite error: "@,
        OpenEyesError::Http(_) => "HTTP error: "@,
        OpenEyesError::Json(_) => "JSON error: "@,
        OpenEyesError::Config(_) => "Config error: "@,
        OpenEyesError::Llm(_) => "LLM error: "@,
        OpenEyesError::Ingestion(_) => "Ingestion error: "@,
        OpenEyesError::Other(_) => ""@,
    }
}

/// The text carried by an error.
pub open spec fn open_eyes_error_detail(e: OpenEyesError) -> Seq<char> {
    match e {
        OpenEyesError::DuckDb(s) => s@,
        OpenEyesError::Sqlite(s) => s@,
        OpenEyesError::Http(s) => s@,
        OpenEyesError::Json(s) => s@,
        OpenEyesError::Config(s) => s@,
        OpenEyesError::Llm(s) => s@,
        OpenEyesError::Ingestion(s) => s@,
        OpenEyesError::Other(s) => s@,
    }
}

impl OpenEyesError {
    /// The message the error is reported with, e.g. `Config error: ...`.
    pub fn message(&self) -> (r: String)
        ensures
            r@ == open_eyes_error_prefix(*self) + open_eyes_error_detail(*self),
    {
        proof {
            reveal_strlit("DuckDB error: ");
            reveal_strlit("SQLite error: ");
            reveal_strlit("HTTP error: ");
            reveal_strlit("JSON error: ");
            reveal_strlit("Config error: ");
            reveal_strlit("LLM error: ");
            reveal_strlit("Ingestion error: ");
            reveal_strlit("");
        }
        let (prefix, detail): (&str, &String) = match self {
            OpenEyesError::DuckDb(s) => ("DuckDB error: ", s),
            OpenEyesError::Sqlite(s) => ("SQLite error: ", s),
            OpenEyesError::Http(s) => ("HTTP error: ", s),
            OpenEyesError::Json(s) => ("JSON error: ", s),
            OpenEyesError::Config(s) => ("Config error: ", s),
            OpenEyesError::Llm(s) => ("LLM error: ", s),
            OpenEyesError::Ingestion(s) => ("Ingestion error: ", s),
            OpenEyesError::Other(s) => ("", s),
        };
        let mut r = prefix.to_owned();
        r.append(detail.as_str());
        r
    }
}

/// Errors of the dashboard server.
#[derive(Debug, Clone, PartialEq, Eq)]
pub enum DashboardError {
    Db(String),
    Config(String),
    Other(String),
}

impl DashboardError {
    /// The message the error is reported with.
    pub fn message(&self) -> (r: String)
        ensures
            r@ == match *self {
                DashboardError::Db(s) => "Database error: "@ + s@,
                DashboardError::Config(s) => "Config error: "@ + s@,
                DashboardError::Other(s) => s@,
            },
    {
        proof {
            reveal_strlit("Database error: ");
            reveal_strlit("Config error: ");
            reveal_strlit("");
        }
        let (prefix, detail): (&str, &String) = match self {
            DashboardError::Db(s) => ("Database error: ", s),
            DashboardError::Config(s) => ("Config error: ", s),
            DashboardError::Other(s) => ("", s),
        };
        let mut r = prefix.to_owned();
        r.append(detail.as_str());
        r
    }
}

} // verus!
