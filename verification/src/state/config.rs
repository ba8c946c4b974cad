//! The global configuration and its audit events.

use vstd::prelude::*;

use crate::constants::{MAX_FEE_BPS, MAX_TREASURY_SPLIT_BPS};
use crate::pubkey::Pubkey;

verus! {

/// The global parameters of the protocol. There is one such record; only the
/// admin changes it.
#[derive(Clone, Copy, Debug, PartialEq, Eq)]
pub struct ProgramConfig {
    /// Who may update the configuration.
    pub admin: Pubkey,
    /// Who receives the treasury's part of fees and forfeitures.
    pub treasury: Pubkey,
    /// Who receives the charity's part of fees and forfeitures.
    pub charity: Pubkey,
    /// The treasury's part of what is split, in basis points; at most 10000.
    pub treasury_split_bps: u16,
    /// The fee on a partial completion, in basis points; at most 1000.
    pub partial_fee_bps: u16,
    /// The penalty for editing a pledge, in basis points; at most 1000.
    pub edit_penalty_bps: u16,
    /// How long after the deadline the owner may still report, in seconds.
    pub grace_period_seconds: i64,
    /// While set, no pledge is created or edited.
    pub paused: bool,
    /// Bump seed of the record's address.
    pub bump: u8,
}

impl ProgramConfig {
    /// Bytes that the stored record takes, its 8-byte tag included.
    pub const INIT_SPACE: usize = 8 + 32 + 32 + 32 + 2 + 2 + 2 + 8 + 1 + 1;

    /// The three rates are within their bounds.
    pub open spec fn well_formed(self) -> bool {
        &&& self.treasury_split_bps <= MAX_TREASURY_SPLIT_BPS
        &&& self.partial_fee_bps <= MAX_FEE_BPS
        &&& self.edit_penalty_bps <= MAX_FEE_BPS
    }

    /// Whether the three rates are within their bounds.
    pub fn is_well_formed(&self) -> (ok: bool)
        ensures
            ok == self.well_formed(),
    {
        self.treasury_split_bps <= MAX_TREASURY_SPLIT_BPS && self.partial_fee_bps <= MAX_FEE_BPS
            && self.edit_penalty_bps <= MAX_FEE_BPS
    }
}

impl Default for ProgramConfig {
    /// The blank record that `initialize` fills.
    fn default() -> (config: Self)
        ensures
            config == (ProgramConfig {
                admin: Pubkey::zero(),
                treasury: Pubkey::zero(),
                charity: Pubkey::zero(),
                treasury_split_bps: 0,
                partial_fee_bps: 0,
                edit_penalty_bps: 0,
                grace_period_seconds: 0,
                paused: false,
                bump: 0,
            }),
    {
        ProgramConfig {
            admin: Pubkey::default(),
            treasury: Pubkey::default(),
            charity: Pubkey::default(),
            treasury_split_bps: 0,
            partial_fee_bps: 0,
            edit_penalty_bps: 0,
            grace_period_seconds: 0,
            paused: false,
            bump: 0,
        }
    }
}

/// The configuration was created.
#[derive(Clone, Copy, Debug, PartialEq, Eq)]
pub struct ConfigInitialized {
    pub admin: Pubkey,
    pub treasury: Pubkey,
    pub charity: Pubkey,
}

/// One field of the configuration was changed.
#[derive(Debug, PartialEq, Eq)]
pub struct ConfigUpdated {
    /// The name of the field.
    pub field: String,
    /// Its value before the change, as text.
    pub old_value: String,
    /// Its value after the change, as text.
    pub new_value: String,
}

/// What a [`ConfigUpdated`] says, as sequences of characters.
pub struct ConfigChange {
    pub field: Seq<char>,
    pub old_value: Seq<char>,
    pub new_value: Seq<char>,
}

impl View for ConfigUpdated {
    type V = ConfigChange;

    open spec fn view(&self) -> ConfigChange {
        ConfigChange { field: self.field@, old_value: self.old_value@, new_value: self.new_value@ }
    }
}

impl DeepView for ConfigUpdated {
    type V = ConfigChange;

    open spec fn deep_view(&self) -> ConfigChange {
        self@
    }
}

impl ConfigUpdated {
    /// The record of a change of `field` from `old_value` to `new_value`.
    pub fn new(field: &str, old_value: String, new_value: String) -> (event: ConfigUpdated)
        ensures
            event@ == (ConfigChange { field: field@, old_value: old_value@, new_value: new_value@ }),
    {
        ConfigUpdated { field: field.to_owned(), old_value, new_value }
    }
}

} // verus!
