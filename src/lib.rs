//! Keeps a local catalog of books keyed by ISBN, resolving new ISBNs through
//! a remote lookup service and merging the results into the catalog.
pub mod isbn;
pub mod volume;
pub mod library;
pub mod storage;
pub mod client;
pub mod json;
pub mod search;
pub mod detail;
pub mod config;
pub mod cli;
pub mod input;
pub mod fetch;
pub mod error;
pub mod snapshot;
