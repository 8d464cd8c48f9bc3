//! A configurable paginator for remote JSON APIs.
//!
//! The library decides everything about a paginated download: which query
//! parameters select a page, how many pages a total item count spans, where
//! the count and the data live in a response, and what a run does next after
//! each response. Performing requests, sleeping and writing files is left to
//! the caller, which feeds the outcomes back in.

pub mod config;
pub mod document;
pub mod laws;
pub mod pagination;
pub mod run;
