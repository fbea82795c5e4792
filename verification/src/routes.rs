//! The requests that are about the service itself.

pub mod home;
pub mod system;
