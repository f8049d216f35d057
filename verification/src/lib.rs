//! Lint policy tables for three strictness profiles, and the text of the
//! configuration files that describe them.

pub mod clippy;
pub mod config;
pub mod lints;
pub mod output;
pub mod project;
pub mod severity;
pub mod text;
pub mod zuu;
