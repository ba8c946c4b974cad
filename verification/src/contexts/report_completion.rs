//! The owner's report of a completion.

use vstd::prelude::*;

use crate::errors::ErrorCode;
use crate::lifecycle::report_transition;
use crate::pubkey::Pubkey;
use crate::state::config::ProgramConfig;
use crate::state::pledge::{CompletionReported, Pledge, PledgeStatus};

verus! {

/// The accounts of `report_completion`.
#[derive(Clone, Copy, Debug, PartialEq, Eq)]
pub struct ReportCompletion {
    /// The caller.
    pub user: Pubkey,
    /// The configuration record.
    pub config: ProgramConfig,
    /// The address of the pledge record.
    pub pledge_key: Pubkey,
    /// The pledge record.
    pub pledge: Pledge,
}

impl ReportCompletion {
    /// Records, at the time `now`, that the owner reports a completion of
    /// `completion_percentage` percent. The pledge becomes reported; no funds
    /// move. A pause of the program does not stop a report.
    ///
    /// Rejected, in this order: unless the pledge is active; unless the caller
    /// is its owner; for a percentage above 100; before the deadline; where
    /// the end of the grace period cannot be computed; after the end of the
    /// grace period. A rejected report changes nothing.
    pub fn report_completion(&mut self, completion_percentage: u8, now: i64) -> (result: Result<
        CompletionReported,
        ErrorCode,
    >)
        ensures
            match report_transition(
                old(self).config,
                old(self).pledge,
                old(self).user,
                completion_percentage,
                now,
            ) {
                Ok(pledge) => {
                    &&& result == Ok::<CompletionReported, ErrorCode>(
                        CompletionReported { pledge: old(self).pledge_key, completion_percentage },
                    )
                    &&& *final(self) == (ReportCompletion { pledge, ..*old(self) })
                },
                Err(e) => result == Err::<CompletionReported, ErrorCode>(e) && *final(self) == *old(self),
            },
    {
        if self.pledge.status != PledgeStatus::Active {
            return Err(ErrorCode::PledgeNotActive);
        }
        if self.user != self.pledge.user {
            return Err(ErrorCode::NotPledgeOwner);
        }
        if completion_percentage > 100 {
            return Err(ErrorCode::InvalidCompletionPercentage);
        }
        if now < self.pledge.deadline {
            return Err(ErrorCode::DeadlineNotPassed);
        }
        let grace_period_end = self.pledge.deadline.checked_add(
            self.config.grace_period_seconds,
        ).ok_or(ErrorCode::Overflow)?;
        if now > grace_period_end {
            return Err(ErrorCode::GracePeriodEnded);
        }
        self.pledge.completion_percentage = Some(completion_percentage);
        self.pledge.reported_at = Some(now);
        self.pledge.status = PledgeStatus::Reported;
        Ok(CompletionReported { pledge: self.pledge_key, completion_percentage })
    }
}

} // verus!
