//! The address of a host kept in a plain file.

pub mod ip_storage;
