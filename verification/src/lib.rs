//! Verified core of a Modbus master connection service.
//!
//! The library owns the connection lifecycle and dispatch logic: validated
//! transport settings, a registry of live connections keyed by identifier,
//! a bounded connect-with-retry protocol, and the routing layer that resolves
//! an identifier to a connection before an operation is issued. The physical
//! transport work (opening channels, awaiting request I/O, sleeping between
//! retries) is performed by the surrounding application through the protocol
//! engine; this crate decides what to do and states the outcome of every
//! decision as a verified contract.

pub mod errors;
pub mod settings;
pub mod connection;
pub mod registry;
pub mod retry;
pub mod dispatch;
