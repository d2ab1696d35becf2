//! Keeps a searchable index of SBOM documents in step with an object store.
//!
//! The crate holds the decisions of the synchronisation service: which
//! notifications lead to indexing, under which key a document is stored, what
//! is inserted into the index for it, and when the index snapshot is written
//! back. The network calls themselves are made by the caller, which drives
//! [`indexer::Indexer`] one event at a time.

pub mod digest;
pub mod document;
pub mod event;
pub mod indexer;
pub mod storage;
pub mod text;
