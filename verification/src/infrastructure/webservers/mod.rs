//! One strategy for each family of web server.

pub mod apache;
pub mod backup;
pub mod commands;
pub mod handler;
pub mod nginx;
pub mod rules;
pub mod rules_proofs;
