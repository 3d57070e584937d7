//! Rules of a small sales ledger kept in a relational store: the statements
//! that lay out its two tables, the adjustment made to the sales fixture, the
//! rows that are inserted, and the wording of the report.
//!
//! Nothing here talks to a store or a file system. Each workflow is a
//! transition function from the step just performed and its outcome to the
//! next step, so that a caller owning the connection can run it.

pub mod text;
pub mod error;
pub mod store;
pub mod settings;
pub mod report;
pub mod schema;
pub mod fixture;
pub mod populate;
