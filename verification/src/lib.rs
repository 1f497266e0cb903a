//! An asynchronous structured-event logging pipeline.
//!
//! Versioned domain events (account updates, transactions, block metadata,
//! slot-status transitions) are normalized into canonical versionless
//! records and rendered as line-delimited JSON. Producers hand records to a
//! non-blocking dispatch handle; a background writer drains them to an
//! append-only sink.

pub mod base58;
pub mod errors;
pub mod events;
pub mod json;
pub mod record;
pub mod structured_logger;
pub mod geyser_plugin;
pub mod thread_safe_logger;
