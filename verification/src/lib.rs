//! Crash-dump session manager for a vendor GPU diagnostic runtime.
//!
//! When a graphics device is lost, a vendor runtime collects a binary
//! diagnostic bundle (a GPU crash dump, optional shader debug information,
//! and optional descriptive metadata) and delivers it asynchronously through
//! callbacks. This crate holds the verified core of that protocol: the
//! session lifecycle (enable once, disable exactly once), the classification
//! of collection statuses and the fixed-interval polling decisions, the
//! deterministic dump identifiers, and the byte-for-byte persistence plans.
//!
//! Everything that must cross the trust boundary to the vendor runtime
//! (raw pointers, file writes, sleeping) is left to the embedding
//! application, which drives the verified state machine with plain values.

pub mod status;
pub mod decimal;
pub mod sink;
pub mod description;
pub mod bridge;
pub mod session;
