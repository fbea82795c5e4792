//! The front page.

pub mod get;
