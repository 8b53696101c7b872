//! Per-conversation database sessions for a chat bot: the registry of live
//! sessions, their expiry, the cleanup and export of ended sessions, the
//! assembly of query results and the choice of how they are delivered.

pub mod card;
pub mod cleanup;
pub mod components;
pub mod config;
pub mod delivery;
pub mod error;
pub mod expiry;
pub mod format;
pub mod messages;
pub mod registry;
pub mod session;
pub mod stats;
