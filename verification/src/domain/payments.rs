//! Entry fees and prizes.

pub mod routes;
pub mod store;
