//! Batched ingestion of client status reports.
//!
//! Reports arrive one at a time, are buffered in order, and are handed to a
//! storage sink in batches. The decision of *when* to write, what to retry
//! and what to give up on is a pure state machine (`scheduler`); the caller
//! performs the actions it asks for and feeds back what happened. The
//! properties of that machine over whole runs are proved in `laws`.
pub mod report;
pub mod batch;
pub mod sql;
pub mod fault;
pub mod scheduler;
pub mod laws;
