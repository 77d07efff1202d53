//! Diagnostics metadata for a running program: which revision and package it was
//! built from, how it was compiled, what system it runs on, how it was invoked and
//! the environment variables a caller asked about, gathered into one snapshot and
//! rendered as debug-level events.
pub mod crate_info;
pub mod event;
pub mod compile_info;
pub mod system_info;
pub mod envvars;
pub mod info;
