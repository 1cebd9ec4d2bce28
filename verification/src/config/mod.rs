//! Telling a configuration from other text.

pub mod nginx;
