//! The life of a pledge as a state machine.
//!
//! A pledge is born active with its stake in custody. Its owner may edit it
//! before the deadline, at the price of a penalty, and may report a completion
//! inside the report window. A settlement, which anyone may trigger once the
//! pledge is reported or its report window has passed, ends the pledge and
//! empties its custody account.
//!
//! Each transition below is a function of the configuration, the pledge, its
//! custody account, the inputs and the current time. It checks every
//! precondition before it changes anything: a rejected call changes nothing.

use vstd::prelude::*;

use crate::errors::{ErrorCode, ErrorKind};
use crate::pubkey::Pubkey;
use crate::state::config::ProgramConfig;
use crate::state::pledge::{Pledge, PledgeCompleted, PledgeForfeited, PledgeStatus, SettlementEvent};
use crate::state::vault::{lemma_total_paid_concat, total_paid, Disbursement, Vault};
use crate::utils::fees::{edit_penalty, split};
use crate::utils::payouts::{
    calculate_settlement,
    lemma_settlement_pays_stake,
    settlement,
    Penalty,
    Settlement,
};

verus! {

/// Custody matches the pledge: while the pledge is active or reported, its
/// custody account is open and holds exactly the stake; afterwards it is
/// empty and closed.
pub open spec fn custody_intact(pledge: Pledge, vault: Vault) -> bool {
    if pledge.status.is_live() {
        vault == (Vault { amount: pledge.stake_amount, closed: false })
    } else {
        vault == (Vault { amount: 0, closed: true })
    }
}

/// Whether custody matches the pledge.
pub fn is_custody_intact(pledge: &Pledge, vault: &Vault) -> (intact: bool)
    ensures
        intact == custody_intact(*pledge, *vault),
{
    if pledge.status.is_live() {
        vault.amount == pledge.stake_amount && !vault.closed
    } else {
        vault.amount == 0 && vault.closed
    }
}

/// The end of the report window of a pledge: its deadline plus the grace
/// period.
pub open spec fn grace_period_end(pledge: Pledge, config: ProgramConfig) -> int {
    pledge.deadline + config.grace_period_seconds
}

/// The status that a settlement at `completion_percentage` percent leaves.
pub open spec fn settled_status(completion_percentage: u8) -> PledgeStatus {
    if completion_percentage > 0 {
        PledgeStatus::Completed
    } else {
        PledgeStatus::Forfeited
    }
}

/// The event that a settlement of the pledge at `address` publishes.
pub open spec fn settlement_event(
    address: Pubkey,
    completion_percentage: u8,
    amounts: Settlement,
) -> SettlementEvent {
    if completion_percentage > 0 {
        SettlementEvent::Completed(
            PledgeCompleted {
                pledge: address,
                completion_percentage,
                refund_amount: amounts.refund_amount,
                fee_amount: amounts.fee_amount,
            },
        )
    } else {
        SettlementEvent::Forfeited(
            PledgeForfeited {
                pledge: address,
                treasury_amount: amounts.treasury_amount,
                charity_amount: amounts.charity_amount,
            },
        )
    }
}

/// Creation: `user` locks `stake_amount` of the asset `mint` until `deadline`.
/// Rejected while the program is paused, for a stake of zero, and for a
/// deadline that is not after `now`.
pub open spec fn create_transition(
    config: ProgramConfig,
    user: Pubkey,
    mint: Pubkey,
    stake_amount: u64,
    deadline: i64,
    now: i64,
    bump: u8,
    vault_bump: u8,
) -> Result<(Pledge, Vault), ErrorCode> {
    if config.paused {
        Err(ErrorCode::ProgramPaused)
    } else if stake_amount == 0 {
        Err(ErrorCode::InvalidStakeAmount)
    } else if deadline <= now {
        Err(ErrorCode::InvalidDeadline)
    } else {
        Ok(
            (
                Pledge {
                    user,
                    mint,
                    stake_amount,
                    deadline,
                    status: PledgeStatus::Active,
                    completion_percentage: None,
                    reported_at: None,
                    created_at: now,
                    bump,
                    vault_bump,
                },
                Vault { amount: stake_amount, closed: false },
            ),
        )
    }
}

/// An edit: the owner pays the edit penalty out of the stake and may set a new
/// deadline. Rejected unless the pledge is active, the caller is its owner, the
/// program is not paused and the deadline has not passed; for a penalty or a
/// split that cannot be computed; and for a new deadline that is not after
/// `now`.
pub open spec fn edit_transition(
    config: ProgramConfig,
    pledge: Pledge,
    vault: Vault,
    caller: Pubkey,
    new_deadline: Option<i64>,
    now: i64,
) -> Result<(Pledge, Vault, Penalty), ErrorCode> {
    if pledge.status != PledgeStatus::Active {
        Err(ErrorCode::PledgeNotActive)
    } else if caller != pledge.user {
        Err(ErrorCode::NotPledgeOwner)
    } else if config.paused {
        Err(ErrorCode::ProgramPaused)
    } else if now >= pledge.deadline {
        Err(ErrorCode::DeadlineAlreadyPassed)
    } else {
        match edit_penalty(pledge.stake_amount, config.edit_penalty_bps) {
            Err(e) => Err(e),
            Ok(amount) => match split(amount, config.treasury_split_bps) {
                Err(e) => Err(e),
                Ok((treasury_amount, charity_amount)) => if amount > pledge.stake_amount {
                    Err(ErrorCode::Underflow)
                } else if new_deadline matches Some(deadline) && deadline <= now {
                    Err(ErrorCode::InvalidDeadline)
                } else {
                    Ok(
                        (
                            Pledge {
                                stake_amount: (pledge.stake_amount - amount) as u64,
                                deadline: match new_deadline {
                                    Some(deadline) => deadline,
                                    None => pledge.deadline,
                                },
                                ..pledge
                            },
                            Vault { amount: (vault.amount - amount) as u64, closed: vault.closed },
                            Penalty { amount, treasury_amount, charity_amount },
                        ),
                    )
                },
            },
        }
    }
}

/// A report: the owner states how much of the goal was met. Rejected unless
/// the pledge is active, the caller is its owner, the percentage is at most
/// 100 and `now` lies in the report window, from the deadline to the end of
/// the grace period. No funds move.
pub open spec fn report_transition(
    config: ProgramConfig,
    pledge: Pledge,
    caller: Pubkey,
    completion_percentage: u8,
    now: i64,
) -> Result<Pledge, ErrorCode> {
    if pledge.status != PledgeStatus::Active {
        Err(ErrorCode::PledgeNotActive)
    } else if caller != pledge.user {
        Err(ErrorCode::NotPledgeOwner)
    } else if completion_percentage > 100 {
        Err(ErrorCode::InvalidCompletionPercentage)
    } else if now < pledge.deadline {
        Err(ErrorCode::DeadlineNotPassed)
    } else if !(i64::MIN <= grace_period_end(pledge, config) <= i64::MAX) {
        Err(ErrorCode::Overflow)
    } else if now > grace_period_end(pledge, config) {
        Err(ErrorCode::GracePeriodEnded)
    } else {
        Ok(
            Pledge {
                completion_percentage: Some(completion_percentage),
                reported_at: Some(now),
                status: PledgeStatus::Reported,
                ..pledge
            },
        )
    }
}

/// The settlement of a pledge at `completion_percentage` percent, whatever
/// triggered it: the stake is divided, custody is emptied and closed, and the
/// pledge ends as completed or forfeited.
pub open spec fn settle(config: ProgramConfig, pledge: Pledge, completion_percentage: u8) -> Result<
    (Pledge, Vault, Settlement),
    ErrorCode,
> {
    match settlement(
        pledge.stake_amount,
        completion_percentage,
        config.partial_fee_bps,
        config.treasury_split_bps,
    ) {
        Err(e) => Err(e),
        Ok(amounts) => Ok(
            (
                Pledge {
                    completion_percentage: Some(completion_percentage),
                    status: settled_status(completion_percentage),
                    ..pledge
                },
                Vault { amount: 0, closed: true },
                amounts,
            ),
        ),
    }
}

/// Settles the pledge at `address` at `completion_percentage` percent: divides
/// the stake, takes refund, treasury's and charity's part out of custody,
/// closes the emptied custody account, and ends the pledge as completed, or as
/// forfeited where the percentage is zero. Where the division cannot be
/// computed, nothing changes.
pub fn settle_pledge(
    config: &ProgramConfig,
    address: Pubkey,
    pledge: &mut Pledge,
    vault: &mut Vault,
    completion_percentage: u8,
) -> (result: Result<(Settlement, SettlementEvent), ErrorCode>)
    requires
        old(pledge).status.is_live(),
        custody_intact(*old(pledge), *old(vault)),
    ensures
        match settle(*config, *old(pledge), completion_percentage) {
            Ok((settled, emptied, amounts)) => {
                &&& result == Ok::<(Settlement, SettlementEvent), ErrorCode>(
                    (amounts, settlement_event(address, completion_percentage, amounts)),
                )
                &&& *final(pledge) == settled
                &&& *final(vault) == emptied
                &&& amounts.refund_amount + amounts.treasury_amount + amounts.charity_amount == old(vault).amount
            },
            Err(e) => {
                &&& result == Err::<(Settlement, SettlementEvent), ErrorCode>(e)
                &&& *final(pledge) == *old(pledge)
                &&& *final(vault) == *old(vault)
            },
        },
        custody_intact(*final(pledge), *final(vault)),
{
    let amounts = calculate_settlement(
        pledge.stake_amount,
        completion_percentage,
        config.partial_fee_bps,
        config.treasury_split_bps,
    )?;
    vault.withdraw(amounts.refund_amount);
    vault.withdraw(amounts.treasury_amount);
    vault.withdraw(amounts.charity_amount);
    vault.close();
    pledge.completion_percentage = Some(completion_percentage);
    let event = if completion_percentage > 0 {
        pledge.status = PledgeStatus::Completed;
        SettlementEvent::Completed(
            PledgeCompleted {
                pledge: address,
                completion_percentage,
                refund_amount: amounts.refund_amount,
                fee_amount: amounts.fee_amount,
            },
        )
    } else {
        pledge.status = PledgeStatus::Forfeited;
        SettlementEvent::Forfeited(
            PledgeForfeited {
                pledge: address,
                treasury_amount: amounts.treasury_amount,
                charity_amount: amounts.charity_amount,
            },
        )
    };
    Ok((amounts, event))
}

/// The settlement of a reported pledge, at the percentage that the owner
/// reported. Rejected unless the pledge is reported.
pub open spec fn completion_transition(config: ProgramConfig, pledge: Pledge) -> Result<
    (Pledge, Vault, Settlement),
    ErrorCode,
> {
    if pledge.status != PledgeStatus::Reported {
        Err(ErrorCode::PledgeNotReported)
    } else {
        match pledge.completion_percentage {
            None => Err(ErrorCode::InvalidCompletionPercentage),
            Some(completion_percentage) => settle(config, pledge, completion_percentage),
        }
    }
}

/// The settlement of a pledge that was never reported, at the percentage that
/// the caller supplies. Rejected unless the pledge is active and the grace
/// period has ended.
pub open spec fn expiry_transition(
    config: ProgramConfig,
    pledge: Pledge,
    completion_percentage: u8,
    now: i64,
) -> Result<(Pledge, Vault, Settlement), ErrorCode> {
    if pledge.status != PledgeStatus::Active {
        Err(ErrorCode::PledgeNotActive)
    } else if !(i64::MIN <= grace_period_end(pledge, config) <= i64::MAX) {
        Err(ErrorCode::Overflow)
    } else if now <= grace_period_end(pledge, config) {
        Err(ErrorCode::GracePeriodNotEnded)
    } else {
        settle(config, pledge, completion_percentage)
    }
}

/// One call of an operation on an existing pledge, with the configuration and
/// the time at which it is made.
pub enum Call {
    Edit { config: ProgramConfig, caller: Pubkey, new_deadline: Option<i64>, now: i64 },
    Report { config: ProgramConfig, caller: Pubkey, completion_percentage: u8, now: i64 },
    ProcessCompletion { config: ProgramConfig },
    ProcessExpired { config: ProgramConfig, completion_percentage: u8, now: i64 },
}

/// A pledge with its custody account.
pub struct Escrow {
    pub pledge: Pledge,
    pub vault: Vault,
}

/// The error with which `call` is rejected on `escrow`, if it is.
pub open spec fn rejection(escrow: Escrow, call: Call) -> Option<ErrorCode> {
    match call {
        Call::Edit { config, caller, new_deadline, now } => match edit_transition(
            config,
            escrow.pledge,
            escrow.vault,
            caller,
            new_deadline,
            now,
        ) {
            Ok(_) => None,
            Err(e) => Some(e),
        },
        Call::Report { config, caller, completion_percentage, now } => match report_transition(
            config,
            escrow.pledge,
            caller,
            completion_percentage,
            now,
        ) {
            Ok(_) => None,
            Err(e) => Some(e),
        },
        Call::ProcessCompletion { config } => match completion_transition(config, escrow.pledge) {
            Ok(_) => None,
            Err(e) => Some(e),
        },
        Call::ProcessExpired { config, completion_percentage, now } => match expiry_transition(
            config,
            escrow.pledge,
            completion_percentage,
            now,
        ) {
            Ok(_) => None,
            Err(e) => Some(e),
        },
    }
}

/// The pledge and its custody account after `call`, and the transfers that the
/// call makes out of custody. A rejected call changes nothing and makes none.
pub open spec fn step(escrow: Escrow, call: Call) -> (Escrow, Seq<Disbursement>) {
    match call {
        Call::Edit { config, caller, new_deadline, now } => match edit_transition(
            config,
            escrow.pledge,
            escrow.vault,
            caller,
            new_deadline,
            now,
        ) {
            Ok((pledge, vault, penalty)) => (Escrow { pledge, vault }, penalty.payments()),
            Err(_) => (escrow, Seq::empty()),
        },
        Call::Report { config, caller, completion_percentage, now } => match report_transition(
            config,
            escrow.pledge,
            caller,
            completion_percentage,
            now,
        ) {
            Ok(pledge) => (Escrow { pledge, vault: escrow.vault }, Seq::empty()),
            Err(_) => (escrow, Seq::empty()),
        },
        Call::ProcessCompletion { config } => match completion_transition(config, escrow.pledge) {
            Ok((pledge, vault, amounts)) => (Escrow { pledge, vault }, amounts.payments()),
            Err(_) => (escrow, Seq::empty()),
        },
        Call::ProcessExpired { config, completion_percentage, now } => match expiry_transition(
            config,
            escrow.pledge,
            completion_percentage,
            now,
        ) {
            Ok((pledge, vault, amounts)) => (Escrow { pledge, vault }, amounts.payments()),
            Err(_) => (escrow, Seq::empty()),
        },
    }
}

/// The pledge and its custody account after `calls`, made in order, and all
/// the transfers that they make out of custody.
pub open spec fn run(escrow: Escrow, calls: Seq<Call>) -> (Escrow, Seq<Disbursement>)
    decreases calls.len(),
{
    if calls.len() == 0 {
        (escrow, Seq::empty())
    } else {
        let (before, paid) = run(escrow, calls.drop_last());
        let (after, more) = step(before, calls.last());
        (after, paid + more)
    }
}

/// Once a pledge has ended, every further call is rejected as a state
/// violation, changes nothing and moves no funds.
pub proof fn lemma_ended_pledge_rejects(escrow: Escrow, call: Call)
    requires
        !escrow.pledge.status.is_live(),
    ensures
        rejection(escrow, call) matches Some(e) && e.kind() == Some(ErrorKind::StateViolation),
        step(escrow, call) == (escrow, Seq::<Disbursement>::empty()),
{
}

/// A call keeps custody matched to the pledge and takes out of custody exactly
/// what it pays. It never raises the stake, and it leaves alone what
/// identifies the pledge: its owner and its time of creation.
pub proof fn lemma_step_conserves(escrow: Escrow, call: Call)
    requires
        custody_intact(escrow.pledge, escrow.vault),
    ensures
        ({
            let (after, paid) = step(escrow, call);
            &&& custody_intact(after.pledge, after.vault)
            &&& total_paid(paid) + after.vault.amount == escrow.vault.amount
            &&& after.pledge.stake_amount <= escrow.pledge.stake_amount
            &&& after.pledge.user == escrow.pledge.user
            &&& after.pledge.created_at == escrow.pledge.created_at
            &&& after.pledge.mint == escrow.pledge.mint
        }),
{
    match call {
        Call::Edit { config, caller, new_deadline, now } => {
            if let Ok((pledge, vault, penalty)) = edit_transition(
                config,
                escrow.pledge,
                escrow.vault,
                caller,
                new_deadline,
                now,
            ) {
                penalty.lemma_payments_total();
            }
        },
        Call::Report { .. } => {},
        Call::ProcessCompletion { config } => {
            if let Ok((pledge, vault, amounts)) = completion_transition(config, escrow.pledge) {
                lemma_settlement_pays_stake(
                    escrow.pledge.stake_amount,
                    escrow.pledge.completion_percentage->Some_0,
                    config.partial_fee_bps,
                    config.treasury_split_bps,
                );
            }
        },
        Call::ProcessExpired { config, completion_percentage, now } => {
            if let Ok((pledge, vault, amounts)) = expiry_transition(
                config,
                escrow.pledge,
                completion_percentage,
                now,
            ) {
                lemma_settlement_pays_stake(
                    escrow.pledge.stake_amount,
                    completion_percentage,
                    config.partial_fee_bps,
                    config.treasury_split_bps,
                );
            }
        },
    }
}

/// Conservation over any sequence of calls: custody stays matched to the
/// pledge, and what was paid out of custody together with what custody still
/// holds is what it held at the start. Once the pledge has ended, all of that
/// has been paid out.
pub proof fn lemma_run_conserves(escrow: Escrow, calls: Seq<Call>)
    requires
        custody_intact(escrow.pledge, escrow.vault),
    ensures
        ({
            let (after, paid) = run(escrow, calls);
            &&& custody_intact(after.pledge, after.vault)
            &&& total_paid(paid) + after.vault.amount == escrow.vault.amount
            &&& !after.pledge.status.is_live() ==> total_paid(paid) == escrow.vault.amount
            &&& after.pledge.stake_amount <= escrow.pledge.stake_amount
            &&& after.pledge.user == escrow.pledge.user
            &&& after.pledge.created_at == escrow.pledge.created_at
            &&& after.pledge.mint == escrow.pledge.mint
        }),
    decreases calls.len(),
{
    if calls.len() > 0 {
        lemma_run_conserves(escrow, calls.drop_last());
        let (before, paid) = run(escrow, calls.drop_last());
        lemma_step_conserves(before, calls.last());
        let (after, more) = step(before, calls.last());
        lemma_total_paid_concat(paid, more);
    }
}

/// Over the full life of a pledge, from its creation to its end, the edit
/// penalties and the final settlement pay out exactly the stake that was
/// locked at creation.
pub proof fn lemma_life_pays_stake(
    config: ProgramConfig,
    user: Pubkey,
    mint: Pubkey,
    stake_amount: u64,
    deadline: i64,
    now: i64,
    bump: u8,
    vault_bump: u8,
    calls: Seq<Call>,
)
    requires
        create_transition(config, user, mint, stake_amount, deadline, now, bump, vault_bump) matches Ok(
            (pledge, vault),
        ) && !run(Escrow { pledge, vault }, calls).0.pledge.status.is_live(),
    ensures
        create_transition(config, user, mint, stake_amount, deadline, now, bump, vault_bump) matches Ok(
            (pledge, vault),
        ) && total_paid(run(Escrow { pledge, vault }, calls).1) == stake_amount,
{
    let (pledge, vault) = create_transition(
        config,
        user,
        mint,
        stake_amount,
        deadline,
        now,
        bump,
        vault_bump,
    )->Ok_0;
    lemma_run_conserves(Escrow { pledge, vault }, calls);
}

} // verus!
