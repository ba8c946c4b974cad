//! Edits of an active pledge.

use vstd::prelude::*;

use crate::errors::ErrorCode;
use crate::lifecycle::{custody_intact, edit_transition};
use crate::pubkey::Pubkey;
use crate::state::config::ProgramConfig;
use crate::state::pledge::{Pledge, PledgeEdited, PledgeStatus};
use crate::state::vault::Vault;
use crate::utils::fees::{calculate_edit_penalty, calculate_split};
use crate::utils::payouts::Penalty;

verus! {

/// The accounts of `edit_pledge`.
#[derive(Clone, Copy, Debug, PartialEq, Eq)]
pub struct EditPledge {
    /// The caller.
    pub user: Pubkey,
    /// The configuration record.
    pub config: ProgramConfig,
    /// The address of the pledge record.
    pub pledge_key: Pubkey,
    /// The pledge record.
    pub pledge: Pledge,
    /// The custody account of the pledge.
    pub vault: Vault,
}

impl EditPledge {
    /// Edits the pledge at the time `now`: takes the edit penalty out of the
    /// stake, shares it between treasury and charity, and sets the new
    /// deadline if one is supplied.
    ///
    /// Rejected, in this order: unless the pledge is active; unless the caller
    /// is its owner; while the program is paused; once the deadline is
    /// reached; where penalty or split cannot be computed; for a new deadline
    /// that is not after `now`. A rejected edit changes nothing.
    pub fn edit_pledge(&mut self, new_deadline: Option<i64>, now: i64) -> (result: Result<
        (Penalty, PledgeEdited),
        ErrorCode,
    >)
        requires
            custody_intact(old(self).pledge, old(self).vault),
        ensures
            match edit_transition(
                old(self).config,
                old(self).pledge,
                old(self).vault,
                old(self).user,
                new_deadline,
                now,
            ) {
                Ok((pledge, vault, penalty)) => {
                    &&& result == Ok::<(Penalty, PledgeEdited), ErrorCode>(
                        (
                            penalty,
                            PledgeEdited { pledge: old(self).pledge_key, penalty_paid: penalty.amount },
                        ),
                    )
                    &&& *final(self) == (EditPledge { pledge, vault, ..*old(self) })
                    &&& penalty.treasury_amount + penalty.charity_amount == penalty.amount
                    &&& final(self).pledge.stake_amount + penalty.amount == old(self).pledge.stake_amount
                },
                Err(e) => result == Err::<(Penalty, PledgeEdited), ErrorCode>(e) && *final(self)
                    == *old(self),
            },
            custody_intact(final(self).pledge, final(self).vault),
    {
        if self.pledge.status != PledgeStatus::Active {
            return Err(ErrorCode::PledgeNotActive);
        }
        if self.user != self.pledge.user {
            return Err(ErrorCode::NotPledgeOwner);
        }
        if self.config.paused {
            return Err(ErrorCode::ProgramPaused);
        }
        if now >= self.pledge.deadline {
            return Err(ErrorCode::DeadlineAlreadyPassed);
        }
        let amount = calculate_edit_penalty(self.pledge.stake_amount, self.config.edit_penalty_bps)?;
        let (treasury_amount, charity_amount) = calculate_split(
            amount,
            self.config.treasury_split_bps,
        )?;
        let remaining = self.pledge.stake_amount.checked_sub(amount).ok_or(ErrorCode::Underflow)?;
        if let Some(deadline) = new_deadline {
            if deadline <= now {
                return Err(ErrorCode::InvalidDeadline);
            }
            self.pledge.deadline = deadline;
        }
        self.vault.withdraw(treasury_amount);
        self.vault.withdraw(charity_amount);
        self.pledge.stake_amount = remaining;
        Ok(
            (
                Penalty { amount, treasury_amount, charity_amount },
                PledgeEdited { pledge: self.pledge_key, penalty_paid: amount },
            ),
        )
    }
}

} // verus!
