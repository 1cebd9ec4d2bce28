//! The data that the decisions are made on, and the decisions.

pub mod entities;
pub mod ports;
pub mod service_proofs;
pub mod services;
pub mod value_objects;
