//! Core logic of the newsletter service: configuration strings, the
//! delivery worker's decisions, and the text that the admin pages show.

pub mod configuration;
pub mod domain;
pub mod idempotency;
pub mod issue_delivery_worker;
pub mod routes;
