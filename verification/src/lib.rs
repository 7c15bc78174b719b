//! Schema migration engine and domain model of the dross manager service.
//!
//! The engine never touches storage itself. It answers every reply of the
//! host with the next request to carry out, so that each decision it takes
//! is stated, and proved, over plain values.

pub mod dross;
pub mod email;
pub mod endpoints;
pub mod faery;
pub mod middleware;
pub mod migrations;
pub mod player;
pub mod repository;
pub mod service;
pub mod session;
pub mod sql;
pub mod version;
