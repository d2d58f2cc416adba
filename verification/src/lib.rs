//! A census of unsafe Rust across the crates of crates.io.
//!
//! The crates of the registry index are chosen (`plan`, `catalog`), downloaded
//! and unpacked, parsed (`syntax`), and their unsafe constructs and foreign
//! function boundaries are counted (`census`). Crates that fail at any step are
//! logged so that a later run can try them again (`failures`).

pub mod catalog;
pub mod census;
pub mod failures;
pub mod plan;
pub mod syntax;
