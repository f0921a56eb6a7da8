//! Reconciliation of a portal's tabular export against canonical customer
//! records: fuzzy account matching, identifier extraction, deduplication of
//! enrichment events, and the decision logic of the browser-driven retrieval
//! that produces the export.

pub mod text;
pub mod similarity;
pub mod records;
pub mod dates;
pub mod matching;
pub mod identifier;
pub mod reconcile;
pub mod extract;
pub mod watcher;
pub mod retrieval;
pub mod source;
pub mod config;
