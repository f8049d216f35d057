//! Lint policies in full: every lint with its rationale, its category, and
//! its level under each profile.

pub mod generate;
pub mod lints;
pub mod model;
pub mod policy;
