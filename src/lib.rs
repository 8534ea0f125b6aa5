//! Scanning for Bluetooth LE advertisements: the service filter applied to each
//! received advertisement, and the start/stop discipline of a scanning session.
//! The platform's radio is driven by the caller, one requested call at a time.

pub mod filter;
pub mod watcher;
