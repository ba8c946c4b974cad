//! The persisted records, the custody account and the audit events.

pub mod config;
pub mod pledge;
pub mod vault;
