//! Creation of the configuration.

use vstd::prelude::*;

use crate::constants::{MAX_FEE_BPS, MAX_TREASURY_SPLIT_BPS};
use crate::errors::ErrorCode;
use crate::pubkey::Pubkey;
use crate::state::config::{ConfigInitialized, ProgramConfig};

verus! {

/// The bump seeds of the accounts that `initialize` creates.
#[derive(Clone, Copy, Debug, PartialEq, Eq, Structural)]
pub struct InitializeBumps {
    pub config: u8,
}

/// The accounts of `initialize`.
#[derive(Clone, Copy, Debug, PartialEq, Eq)]
pub struct Initialize {
    /// The caller, who becomes the admin.
    pub admin: Pubkey,
    /// The configuration record, blank before the call.
    pub config: ProgramConfig,
}

impl Initialize {
    /// Creates the configuration, with the caller as its admin and the program
    /// not paused. Rejects a treasury split above 10000 bps, then a partial
    /// fee above 1000 bps, then an edit penalty above 1000 bps.
    pub fn initialize(
        &mut self,
        treasury: Pubkey,
        charity: Pubkey,
        treasury_split_bps: u16,
        partial_fee_bps: u16,
        edit_penalty_bps: u16,
        grace_period_seconds: i64,
        bumps: &InitializeBumps,
    ) -> (result: Result<ConfigInitialized, ErrorCode>)
        ensures
            match result {
                Ok(event) => {
                    &&& treasury_split_bps <= MAX_TREASURY_SPLIT_BPS
                    &&& partial_fee_bps <= MAX_FEE_BPS
                    &&& edit_penalty_bps <= MAX_FEE_BPS
                    &&& final(self).admin == old(self).admin
                    &&& final(self).config == (ProgramConfig {
                        admin: old(self).admin,
                        treasury,
                        charity,
                        treasury_split_bps,
                        partial_fee_bps,
                        edit_penalty_bps,
                        grace_period_seconds,
                        paused: false,
                        bump: bumps.config,
                    })
                    &&& final(self).config.well_formed()
                    &&& event == (ConfigInitialized { admin: old(self).admin, treasury, charity })
                },
                Err(e) => {
                    &&& *final(self) == *old(self)
                    &&& if treasury_split_bps > MAX_TREASURY_SPLIT_BPS {
                        e == ErrorCode::InvalidTreasurySplit
                    } else {
                        e == ErrorCode::InvalidFee && (partial_fee_bps > MAX_FEE_BPS || edit_penalty_bps
                            > MAX_FEE_BPS)
                    }
                },
            },
    {
        if treasury_split_bps > MAX_TREASURY_SPLIT_BPS {
            return Err(ErrorCode::InvalidTreasurySplit);
        }
        if partial_fee_bps > MAX_FEE_BPS {
            return Err(ErrorCode::InvalidFee);
        }
        if edit_penalty_bps > MAX_FEE_BPS {
            return Err(ErrorCode::InvalidFee);
        }
        self.config = ProgramConfig {
            admin: self.admin,
            treasury,
            charity,
            treasury_split_bps,
            partial_fee_bps,
            edit_penalty_bps,
            grace_period_seconds,
            paused: false,
            bump: bumps.config,
        };
        Ok(ConfigInitialized { admin: self.admin, treasury, charity })
    }
}

} // verus!
