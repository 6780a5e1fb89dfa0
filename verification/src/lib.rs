//! Ingestion tier for a decentralized-social-protocol application.
//!
//! The library consumes repository change events from an upstream relay,
//! validates each one against protocol-level and application-level rules,
//! and applies idempotent mutations to a relational projection. The
//! projection itself is modelled here as an in-memory store with verified
//! transitions; the surrounding process wires the store to its transport
//! and database.

pub mod connect;
pub mod events;
pub mod governor;
pub mod handlers;
pub mod keys;
pub mod laws;
pub mod proxy;
pub mod store;
pub mod text;
