//! The arguments of the command line.

pub mod args;
