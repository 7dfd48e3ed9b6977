//! Harvesting of information-disclosure records and their attachments:
//! the portal's wire framing, detail-endpoint routing, the deduplicating
//! document store and the local configuration, with their contracts.

pub mod text;
pub mod client;
pub mod naming;
pub mod files;
pub mod batch;
pub mod log;
pub mod config;
pub mod models;
pub mod wire;
