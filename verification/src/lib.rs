//! Resolution and validation of the configuration of a release-packaging run.
//!
//! A configuration is loaded, merged with the overrides given on the command
//! line, and validated against the file system and the environment before any
//! packaging stage runs. This library holds the rules: the grammar of version
//! strings, the precedence of the merge, and the order and outcome of the
//! validation checks. It performs no input or output itself. Validation is
//! a sequence of decisions: each names what has to be looked up outside, and
//! the caller hands the finding back.

pub mod config;
pub mod error;
pub mod outcome;
pub mod validate;
pub mod version;
