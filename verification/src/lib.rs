//! Batch renaming driven by an arbitrary external command.
//!
//! The library holds the decision logic of a batch renamer: formatting and
//! evaluating external command runs, splitting and joining file paths,
//! planning the isolated dry-run invocation that previews a rename, mapping
//! keystrokes to confirmation decisions, and the orchestrator state machine
//! that bounds concurrency and aggregates failures. All process and
//! filesystem work is left to the surrounding program, which feeds plain
//! values in and out of these verified functions.

pub mod batch;
pub mod command;
pub mod confirm;
pub mod decimal;
pub mod errors;
pub mod outcome;
pub mod pathname;
pub mod plan;
