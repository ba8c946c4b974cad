//! The entry points of the program: one function for each operation.
//!
//! Each takes the accounts of its operation together with the bump seeds of
//! the accounts that the operation creates, and hands the call on to the
//! operation itself. Where an operation depends on the time, the caller reads
//! the clock once and passes the reading in.

use vstd::prelude::*;

use crate::contexts::create_pledge::{CreatePledge, CreatePledgeBumps};
use crate::contexts::edit_pledge::EditPledge;
use crate::contexts::initialize::{Initialize, InitializeBumps};
use crate::contexts::process_completion::ProcessCompletion;
use crate::contexts::process_expired::ProcessExpired;
use crate::contexts::report_completion::ReportCompletion;
use crate::contexts::update_config::UpdateConfig;
use crate::errors::ErrorCode;
use crate::lifecycle::{
    completion_transition,
    create_transition,
    custody_intact,
    edit_transition,
    expiry_transition,
    report_transition,
    settlement_event,
};
use crate::pubkey::Pubkey;
use crate::state::config::{ConfigInitialized, ConfigUpdated, ProgramConfig};
use crate::state::pledge::{CompletionReported, PledgeCreated, PledgeEdited, SettlementEvent};
use crate::utils::payouts::{Penalty, Settlement};

verus! {

/// The bump seeds of an operation that creates no account: none.
#[derive(Clone, Copy, Debug, PartialEq, Eq, Structural)]
pub struct NoBumps {}

/// What an entry point is called with: the accounts of the operation and the
/// bump seeds of those among them that the operation creates.
#[derive(Debug, PartialEq, Eq)]
pub struct Context<T, B> {
    pub accounts: T,
    pub bumps: B,
}

/// Creates the configuration; the caller becomes its admin.
pub fn initialize(
    ctx: &mut Context<Initialize, InitializeBumps>,
    treasury: Pubkey,
    charity: Pubkey,
    treasury_split_bps: u16,
    partial_fee_bps: u16,
    edit_penalty_bps: u16,
    grace_period_seconds: i64,
) -> (result: Result<ConfigInitialized, ErrorCode>)
    ensures
        final(ctx).bumps == old(ctx).bumps,
        match result {
            Ok(event) => {
                &&& treasury_split_bps <= 10000
                &&& partial_fee_bps <= 1000
                &&& edit_penalty_bps <= 1000
                &&& final(ctx).accounts == (Initialize {
                    admin: old(ctx).accounts.admin,
                    config: ProgramConfig {
                        admin: old(ctx).accounts.admin,
                        treasury,
                        charity,
                        treasury_split_bps,
                        partial_fee_bps,
                        edit_penalty_bps,
                        grace_period_seconds,
                        paused: false,
                        bump: old(ctx).bumps.config,
                    },
                })
                &&& event == (ConfigInitialized { admin: old(ctx).accounts.admin, treasury, charity })
            },
            Err(e) => {
                &&& final(ctx).accounts == old(ctx).accounts
                &&& if treasury_split_bps > 10000 {
                    e == ErrorCode::InvalidTreasurySplit
                } else {
                    e == ErrorCode::InvalidFee && (partial_fee_bps > 1000 || edit_penalty_bps > 1000)
                }
            },
        },
{
    let bumps = ctx.bumps;
    ctx.accounts.initialize(
        treasury,
        charity,
        treasury_split_bps,
        partial_fee_bps,
        edit_penalty_bps,
        grace_period_seconds,
        &bumps,
    )
}

/// Changes the configuration; only its admin may.
pub fn update_config(
    ctx: &mut Context<UpdateConfig, NoBumps>,
    new_treasury: Option<Pubkey>,
    new_charity: Option<Pubkey>,
    new_treasury_split_bps: Option<u16>,
    new_partial_fee_bps: Option<u16>,
    new_edit_penalty_bps: Option<u16>,
    new_grace_period_seconds: Option<i64>,
    paused: Option<bool>,
) -> (result: Result<Vec<ConfigUpdated>, ErrorCode>)
    ensures
        final(ctx).accounts.admin == old(ctx).accounts.admin,
        match old(ctx).accounts.rejection(
            new_treasury_split_bps,
            new_partial_fee_bps,
            new_edit_penalty_bps,
        ) {
            Some(e) => result == Err::<Vec<ConfigUpdated>, ErrorCode>(e) && final(ctx).accounts.config
                == old(ctx).accounts.config,
            None => {
                &&& final(ctx).accounts.config == old(ctx).accounts.updated(
                    new_treasury,
                    new_charity,
                    new_treasury_split_bps,
                    new_partial_fee_bps,
                    new_edit_penalty_bps,
                    new_grace_period_seconds,
                    paused,
                )
                &&& result matches Ok(events) && events.deep_view() == old(ctx).accounts.changes(
                    new_treasury,
                    new_charity,
                    new_treasury_split_bps,
                    new_partial_fee_bps,
                    new_edit_penalty_bps,
                    new_grace_period_seconds,
                    paused,
                )
            },
        },
{
    ctx.accounts.update_config(
        new_treasury,
        new_charity,
        new_treasury_split_bps,
        new_partial_fee_bps,
        new_edit_penalty_bps,
        new_grace_period_seconds,
        paused,
    )
}

/// Creates a pledge of the caller and locks its stake.
pub fn create_pledge(
    ctx: &mut Context<CreatePledge, CreatePledgeBumps>,
    stake_amount: u64,
    deadline: i64,
    created_at: i64,
) -> (result: Result<PledgeCreated, ErrorCode>)
    ensures
        final(ctx).bumps == old(ctx).bumps,
        match create_transition(
            old(ctx).accounts.config,
            old(ctx).accounts.user,
            old(ctx).accounts.mint,
            stake_amount,
            deadline,
            created_at,
            old(ctx).bumps.pledge,
            old(ctx).bumps.vault,
        ) {
            Ok((pledge, vault)) => {
                &&& result == Ok::<PledgeCreated, ErrorCode>(
                    PledgeCreated {
                        pledge: old(ctx).accounts.pledge_key,
                        user: old(ctx).accounts.user,
                        stake_amount,
                        deadline,
                    },
                )
                &&& final(ctx).accounts == (CreatePledge { pledge, vault, ..old(ctx).accounts })
            },
            Err(e) => result == Err::<PledgeCreated, ErrorCode>(e) && final(ctx).accounts == old(ctx).accounts,
        },
{
    let bumps = ctx.bumps;
    ctx.accounts.create_pledge(stake_amount, deadline, created_at, &bumps)
}

/// Edits an active pledge of the caller, at the price of the edit penalty.
pub fn edit_pledge(ctx: &mut Context<EditPledge, NoBumps>, new_deadline: Option<i64>, now: i64) -> (result:
    Result<(Penalty, PledgeEdited), ErrorCode>)
    requires
        custody_intact(old(ctx).accounts.pledge, old(ctx).accounts.vault),
    ensures
        match edit_transition(
            old(ctx).accounts.config,
            old(ctx).accounts.pledge,
            old(ctx).accounts.vault,
            old(ctx).accounts.user,
            new_deadline,
            now,
        ) {
            Ok((pledge, vault, penalty)) => {
                &&& result == Ok::<(Penalty, PledgeEdited), ErrorCode>(
                    (
                        penalty,
                        PledgeEdited {
                            pledge: old(ctx).accounts.pledge_key,
                            penalty_paid: penalty.amount,
                        },
                    ),
                )
                &&& final(ctx).accounts == (EditPledge { pledge, vault, ..old(ctx).accounts })
            },
            Err(e) => result == Err::<(Penalty, PledgeEdited), ErrorCode>(e) && final(ctx).accounts
                == old(ctx).accounts,
        },
        custody_intact(final(ctx).accounts.pledge, final(ctx).accounts.vault),
{
    ctx.accounts.edit_pledge(new_deadline, now)
}

/// Records the completion that the owner reports inside the report window.
pub fn report_completion(
    ctx: &mut Context<ReportCompletion, NoBumps>,
    completion_percentage: u8,
    now: i64,
) -> (result: Result<CompletionReported, ErrorCode>)
    ensures
        match report_transition(
            old(ctx).accounts.config,
            old(ctx).accounts.pledge,
            old(ctx).accounts.user,
            completion_percentage,
            now,
        ) {
            Ok(pledge) => {
                &&& result == Ok::<CompletionReported, ErrorCode>(
                    CompletionReported { pledge: old(ctx).accounts.pledge_key, completion_percentage },
                )
                &&& final(ctx).accounts == (ReportCompletion { pledge, ..old(ctx).accounts })
            },
            Err(e) => result == Err::<CompletionReported, ErrorCode>(e) && final(ctx).accounts == old(ctx).accounts,
        },
{
    ctx.accounts.report_completion(completion_percentage, now)
}

/// Settles a reported pledge; anyone may call.
pub fn process_completion(ctx: &mut Context<ProcessCompletion, NoBumps>) -> (result: Result<
    (Settlement, SettlementEvent),
    ErrorCode,
>)
    requires
        custody_intact(old(ctx).accounts.pledge, old(ctx).accounts.vault),
    ensures
        match completion_transition(old(ctx).accounts.config, old(ctx).accounts.pledge) {
            Ok((pledge, vault, amounts)) => {
                &&& result == Ok::<(Settlement, SettlementEvent), ErrorCode>(
                    (
                        amounts,
                        settlement_event(
                            old(ctx).accounts.pledge_key,
                            old(ctx).accounts.pledge.completion_percentage->Some_0,
                            amounts,
                        ),
                    ),
                )
                &&& final(ctx).accounts == (ProcessCompletion { pledge, vault, ..old(ctx).accounts })
            },
            Err(e) => result == Err::<(Settlement, SettlementEvent), ErrorCode>(e) && final(ctx).accounts == old(ctx).accounts,
        },
        custody_intact(final(ctx).accounts.pledge, final(ctx).accounts.vault),
{
    ctx.accounts.process_completion()
}

/// Settles a pledge whose report window passed without a report; anyone may
/// call.
pub fn process_expired(
    ctx: &mut Context<ProcessExpired, NoBumps>,
    completion_percentage: u8,
    now: i64,
) -> (result: Result<(Settlement, SettlementEvent), ErrorCode>)
    requires
        custody_intact(old(ctx).accounts.pledge, old(ctx).accounts.vault),
    ensures
        match expiry_transition(
            old(ctx).accounts.config,
            old(ctx).accounts.pledge,
            completion_percentage,
            now,
        ) {
            Ok((pledge, vault, amounts)) => {
                &&& result == Ok::<(Settlement, SettlementEvent), ErrorCode>(
                    (
                        amounts,
                        settlement_event(old(ctx).accounts.pledge_key, completion_percentage, amounts),
                    ),
                )
                &&& final(ctx).accounts == (ProcessExpired { pledge, vault, ..old(ctx).accounts })
            },
            Err(e) => result == Err::<(Settlement, SettlementEvent), ErrorCode>(e) && final(ctx).accounts == old(ctx).accounts,
        },
        custody_intact(final(ctx).accounts.pledge, final(ctx).accounts.vault),
{
    ctx.accounts.process_expired(completion_percentage, now)
}

} // verus!
