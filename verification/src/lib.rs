//! A conditional-escrow commitment protocol.
//!
//! An owner locks a stake of one fungible asset against a goal and a deadline.
//! Depending on how completely the goal is reported as met, the stake is split
//! between a refund to the owner, a protocol fee, and a forfeiture shared by a
//! treasury and a charity. Every operation is a function of the configuration,
//! the pledge, its custody account, the inputs and the current time; it returns
//! the new state together with the amounts to move and the event to publish.

pub mod constants;
pub mod contexts;
pub mod errors;
pub mod instructions;
pub mod lifecycle;
pub mod pubkey;
pub mod state;
pub mod utils;

pub use contexts::create_pledge::{CreatePledge, CreatePledgeBumps};
pub use contexts::edit_pledge::EditPledge;
pub use contexts::initialize::{Initialize, InitializeBumps};
pub use contexts::process_completion::ProcessCompletion;
pub use contexts::process_expired::ProcessExpired;
pub use contexts::report_completion::ReportCompletion;
pub use contexts::update_config::UpdateConfig;
pub use errors::{ErrorCode, ErrorKind};
pub use pubkey::Pubkey;
pub use state::config::{ConfigInitialized, ConfigUpdated, ProgramConfig};
pub use state::pledge::{
    CompletionReported, Pledge, PledgeCompleted, PledgeCreated, PledgeEdited, PledgeForfeited,
    PledgeStatus, SettlementEvent,
};
pub use state::vault::{Disbursement, Payee, Vault};
pub use utils::payouts::{Penalty, Settlement};
