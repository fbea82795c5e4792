//! The client of the Lightning payment provider: what it asks, and what it
//! makes of the answers.

pub mod models;
pub mod service;
