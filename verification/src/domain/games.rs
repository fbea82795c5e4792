//! Sessions, configurations and scores.

pub mod routes;
pub mod store;
