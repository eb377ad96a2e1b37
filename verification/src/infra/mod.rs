//! Front-end logic that needs no store: argument parsing and JSON input checks.
pub mod cli;
pub mod json;
