//! Creation of a pledge.

use vstd::prelude::*;

use crate::errors::ErrorCode;
use crate::lifecycle::{create_transition, custody_intact};
use crate::pubkey::Pubkey;
use crate::state::config::ProgramConfig;
use crate::state::pledge::{Pledge, PledgeCreated, PledgeStatus};
use crate::state::vault::Vault;

verus! {

/// The bump seeds of the accounts that `create_pledge` creates.
#[derive(Clone, Copy, Debug, PartialEq, Eq, Structural)]
pub struct CreatePledgeBumps {
    pub pledge: u8,
    pub vault: u8,
}

/// The accounts of `create_pledge`.
#[derive(Clone, Copy, Debug, PartialEq, Eq)]
pub struct CreatePledge {
    /// The caller, who becomes the owner.
    pub user: Pubkey,
    /// The configuration record.
    pub config: ProgramConfig,
    /// The address of the pledge record.
    pub pledge_key: Pubkey,
    /// The pledge record, blank before the call.
    pub pledge: Pledge,
    /// The custody account of the pledge, fresh before the call.
    pub vault: Vault,
    /// The asset of the stake.
    pub mint: Pubkey,
}

impl CreatePledge {
    /// Creates an active pledge of the caller and moves `stake_amount` from
    /// the caller into its custody account. `created_at` is the current time.
    /// Rejected while the program is paused, for a stake of zero, and for a
    /// deadline that is not after `created_at`.
    pub fn create_pledge(
        &mut self,
        stake_amount: u64,
        deadline: i64,
        created_at: i64,
        bumps: &CreatePledgeBumps,
    ) -> (result: Result<PledgeCreated, ErrorCode>)
        ensures
            match create_transition(
                old(self).config,
                old(self).user,
                old(self).mint,
                stake_amount,
                deadline,
                created_at,
                bumps.pledge,
                bumps.vault,
            ) {
                Ok((pledge, vault)) => {
                    &&& result == Ok::<PledgeCreated, ErrorCode>(
                        PledgeCreated {
                            pledge: old(self).pledge_key,
                            user: old(self).user,
                            stake_amount,
                            deadline,
                        },
                    )
                    &&& *final(self) == (CreatePledge { pledge, vault, ..*old(self) })
                    &&& custody_intact(final(self).pledge, final(self).vault)
                },
                Err(e) => result == Err::<PledgeCreated, ErrorCode>(e) && *final(self) == *old(self),
            },
    {
        if self.config.paused {
            return Err(ErrorCode::ProgramPaused);
        }
        if stake_amount == 0 {
            return Err(ErrorCode::InvalidStakeAmount);
        }
        if deadline <= created_at {
            return Err(ErrorCode::InvalidDeadline);
        }
        self.vault = Vault::holding(stake_amount);
        self.pledge = Pledge {
            user: self.user,
            mint: self.mint,
            stake_amount,
            deadline,
            status: PledgeStatus::Active,
            completion_percentage: None,
            reported_at: None,
            created_at,
            bump: bumps.pledge,
            vault_bump: bumps.vault,
        };
        Ok(PledgeCreated { pledge: self.pledge_key, user: self.user, stake_amount, deadline })
    }
}

} // verus!
