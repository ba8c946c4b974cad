//! Settlement of a pledge that was never reported.

use vstd::prelude::*;

use crate::errors::ErrorCode;
use crate::lifecycle::{custody_intact, expiry_transition, settle_pledge, settlement_event};
use crate::pubkey::Pubkey;
use crate::state::config::ProgramConfig;
use crate::state::pledge::{Pledge, PledgeStatus, SettlementEvent};
use crate::state::vault::Vault;
use crate::utils::payouts::Settlement;

verus! {

/// The accounts of `process_expired`. Anyone may make the call.
#[derive(Clone, Copy, Debug, PartialEq, Eq)]
pub struct ProcessExpired {
    /// The configuration record.
    pub config: ProgramConfig,
    /// The address of the pledge record.
    pub pledge_key: Pubkey,
    /// The pledge record.
    pub pledge: Pledge,
    /// The custody account of the pledge.
    pub vault: Vault,
}

impl ProcessExpired {
    /// Settles, at the time `now`, an active pledge whose report window has
    /// passed. The caller supplies the completion percentage; it is taken on
    /// trust from whoever attests it and is checked only for its range. A
    /// pause of the program does not stop the settlement.
    ///
    /// Rejected, in this order: unless the pledge is active; where the end of
    /// the grace period cannot be computed; until the grace period has ended;
    /// for a percentage above 100; where the division of the stake cannot be
    /// computed. A rejected call changes nothing.
    pub fn process_expired(&mut self, completion_percentage: u8, now: i64) -> (result: Result<
        (Settlement, SettlementEvent),
        ErrorCode,
    >)
        requires
            custody_intact(old(self).pledge, old(self).vault),
        ensures
            match expiry_transition(old(self).config, old(self).pledge, completion_percentage, now) {
                Ok((pledge, vault, amounts)) => {
                    &&& result == Ok::<(Settlement, SettlementEvent), ErrorCode>(
                        (
                            amounts,
                            settlement_event(old(self).pledge_key, completion_percentage, amounts),
                        ),
                    )
                    &&& *final(self) == (ProcessExpired { pledge, vault, ..*old(self) })
                    &&& amounts.refund_amount + amounts.treasury_amount + amounts.charity_amount
                        == old(self).vault.amount
                },
                Err(e) => result == Err::<(Settlement, SettlementEvent), ErrorCode>(e) && *final(self)
                    == *old(self),
            },
            custody_intact(final(self).pledge, final(self).vault),
    {
        if self.pledge.status != PledgeStatus::Active {
            return Err(ErrorCode::PledgeNotActive);
        }
        let grace_period_end = self.pledge.deadline.checked_add(
            self.config.grace_period_seconds,
        ).ok_or(ErrorCode::Overflow)?;
        if now <= grace_period_end {
            return Err(ErrorCode::GracePeriodNotEnded);
        }
        settle_pledge(
            &self.config,
            self.pledge_key,
            &mut self.pledge,
            &mut self.vault,
            completion_percentage,
        )
    }
}

} // verus!
