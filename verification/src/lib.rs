//! `cog`: durable primitives (an append-only ledger and data-defined state
//! machines) whose rules are checked here, independently of the SQLite store.
pub mod application;
pub mod domain;
pub mod error;
pub mod infra;
pub mod text;
