//! Dynamic address update for web-server access rules.
//!
//! Given a hostname whose address may have changed, the library decides which
//! configuration documents need an edit, rewrites the one access rule that
//! names the old address, and says which outside step comes next: a syntax
//! check, a backup, a reload, a write of the address record.

pub mod application;
pub mod cli;
pub mod clock;
pub mod config;
pub mod domain;
pub mod infrastructure;
pub mod interface;
pub mod storage;
pub mod text;
