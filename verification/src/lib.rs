//! One-shot mirroring of base tables from a primary MySQL schema into a
//! secondary schema: discover the primary's tables, skip those the secondary
//! does not have, truncate and repopulate the rest by column name, with
//! foreign-key checks disabled for the duration of the run and restored at
//! the end.
//!
//! The library holds every decision the run makes: which statements to issue,
//! how source rows are mapped onto the secondary's column order, and the
//! orchestration state machine that a thin driver feeds with database
//! results. A model of the run over in-memory tables states and proves the
//! end-to-end guarantees.
pub mod config;
pub mod engine;
pub mod errors;
pub mod laws;
pub mod rows;
pub mod session;
pub mod sql;
pub mod text;
