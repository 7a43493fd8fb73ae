//! Duplicate-file detection: fingerprints, equality keys, grouping,
//! multi-key ordering and the keep/delete decision procedure.

pub mod check;
pub mod config;
pub mod deletion;
pub mod group;
pub mod report;
pub mod scan;
pub mod text;
