//! What the command line is told at the end of a run.

pub mod cli_interface;
