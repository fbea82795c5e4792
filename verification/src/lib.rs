//! Payment-gated arcade sessions: the sessions behind the entry fee, the payment ledger and the
//! daily prize settlement, with their rules stated as contracts.

pub mod clock;
pub mod config;
pub mod daily_tasks;
pub mod domain;
pub mod ident;
pub mod lightning;
pub mod routes;
pub mod secrets;
pub mod settlement;
pub mod signer;
pub mod startup;
pub mod table;
pub mod text;
