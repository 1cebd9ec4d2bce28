//! Runs over many targets, and what configures them.

pub mod services;
pub mod use_case_proofs;
pub mod use_cases;
