//! Settlement of a reported pledge.

use vstd::prelude::*;

use crate::errors::ErrorCode;
use crate::lifecycle::{completion_transition, custody_intact, settle_pledge, settlement_event};
use crate::pubkey::Pubkey;
use crate::state::config::ProgramConfig;
use crate::state::pledge::{Pledge, PledgeStatus, SettlementEvent};
use crate::state::vault::Vault;
use crate::utils::payouts::Settlement;

verus! {

/// The accounts of `process_completion`. Anyone may make the call.
#[derive(Clone, Copy, Debug, PartialEq, Eq)]
pub struct ProcessCompletion {
    /// The configuration record.
    pub config: ProgramConfig,
    /// The address of the pledge record.
    pub pledge_key: Pubkey,
    /// The pledge record.
    pub pledge: Pledge,
    /// The custody account of the pledge.
    pub vault: Vault,
}

impl ProcessCompletion {
    /// Settles a reported pledge at the percentage that its owner reported.
    /// The report already lay in the report window, so the time is not checked
    /// again, and a pause of the program does not stop the settlement.
    ///
    /// Rejected unless the pledge is reported, where the record holds no
    /// percentage, and where the division of the stake cannot be computed. A
    /// rejected call changes nothing.
    pub fn process_completion(&mut self) -> (result: Result<(Settlement, SettlementEvent), ErrorCode>)
        requires
            custody_intact(old(self).pledge, old(self).vault),
        ensures
            match completion_transition(old(self).config, old(self).pledge) {
                Ok((pledge, vault, amounts)) => {
                    &&& result == Ok::<(Settlement, SettlementEvent), ErrorCode>(
                        (
                            amounts,
                            settlement_event(
                                old(self).pledge_key,
                                old(self).pledge.completion_percentage->Some_0,
                                amounts,
                            ),
                        ),
                    )
                    &&& *final(self) == (ProcessCompletion { pledge, vault, ..*old(self) })
                    &&& amounts.refund_amount + amounts.treasury_amount + amounts.charity_amount
                        == old(self).vault.amount
                },
                Err(e) => result == Err::<(Settlement, SettlementEvent), ErrorCode>(e) && *final(self)
                    == *old(self),
            },
            custody_intact(final(self).pledge, final(self).vault),
    {
        if self.pledge.status != PledgeStatus::Reported {
            return Err(ErrorCode::PledgeNotReported);
        }
        let completion_percentage = self.pledge.completion_percentage.ok_or(
            ErrorCode::InvalidCompletionPercentage,
        )?;
        settle_pledge(
            &self.config,
            self.pledge_key,
            &mut self.pledge,
            &mut self.vault,
            completion_percentage,
        )
    }
}

} // verus!
