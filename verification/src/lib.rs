//! Lifecycle coordination for a background service that owns one system-wide
//! input hook: the guarded lifecycle record, the control dispatcher, the status
//! record and the start-up sequence.

pub mod access;
pub mod control;
pub mod lifecycle;
pub mod service;
pub mod status;
pub mod store;
pub mod laws;
