//! A client library for the GitHub command line tool: a registry of the `gh`
//! commands it may run, validation of every operation's input, permission
//! gating, request building, retrying execution with error classification,
//! and parsing of the tool's textual output.
pub mod text;
pub mod engine;
pub mod features;
pub mod contract;
pub mod app_ipc;
pub mod frontend;
pub mod json;
pub mod keywords;
