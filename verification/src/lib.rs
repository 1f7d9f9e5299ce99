//! Verified core of the Open Eyes open-data assistant.
pub mod arrays;
pub mod charts;
pub mod chat;
pub mod config;
pub mod crawl;
pub mod dashboard;
pub mod errors;
pub mod ingest;
pub mod llm;
pub mod models;
pub mod store;
pub mod text;
pub mod ui;
