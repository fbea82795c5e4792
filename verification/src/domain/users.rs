//! Players.

pub mod routes;
pub mod store;
