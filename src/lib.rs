//! A small local log-ingestion service: payload decoding, the daemon's
//! decision logic, and a durable log table kept in SQLite.

pub mod decoder;
pub mod text;
pub mod error;
pub mod statement;
pub mod store;
pub mod daemon;
pub mod service;
