//! The operations, each with the accounts it works on.

pub mod initialize;
pub mod update_config;
pub mod create_pledge;
pub mod edit_pledge;
pub mod report_completion;
pub mod process_completion;
pub mod process_expired;
