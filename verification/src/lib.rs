//! Data model and decision logic of a clipboard-history index.
//!
//! The crate holds everything about the index that can be computed from plain
//! values: how a captured clipboard entry becomes a stored document and back,
//! which fields an index is created with, what a query asks of the search
//! engine and how the documents behind its hits are turned into entries
//! again. Talking to the engine itself (which suspends, touches the disk and
//! gives up on a damaged store) is left to the caller, who hands over what
//! the engine returned.

pub mod delete;
pub mod document;
pub mod entry;
pub mod ingest;
pub mod laws;
pub mod lifecycle;
pub mod payload;
pub mod query;
pub mod schema;
pub mod shell;
pub mod tokens;
