//! Summarises open pull requests of a hosted repository as a markdown table.
//!
//! The library holds the decision and formatting logic: which pull requests
//! qualify for the report, how commit checks are classified, how the review
//! state is labelled, and how the table is rendered. Network fetching and
//! argument reading live outside it and hand it plain values.

pub mod cli;
pub mod model;
pub mod numfmt;
pub mod report;
pub mod status;
pub mod table;
