//! A verified core for a small user-record service.
//!
//! The library models the service's single entity (a user record with an
//! id and a login), the SQL statements the data-access layer issues, an
//! in-memory model of the store's semantics, the JSON bodies the service
//! produces, and the decision each HTTP handler makes when turning a store
//! outcome into a response.

pub mod handlers;
pub mod json;
pub mod laws;
pub mod statements;
pub mod store;
pub mod user;
