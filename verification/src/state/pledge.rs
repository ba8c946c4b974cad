//! The pledge record and its audit events.

use vstd::bytes::{spec_u64_to_le_bytes, u64_to_le_bytes};
use vstd::prelude::*;
use vstd::slice::slice_to_vec;

use crate::constants::PLEDGE_SEED;
use crate::pubkey::Pubkey;

verus! {

/// Where a pledge stands in its life.
#[derive(Clone, Copy, Debug, PartialEq, Eq, Structural)]
pub enum PledgeStatus {
    /// The pledge is running.
    Active,
    /// The owner has reported; the settlement is pending.
    Reported,
    /// Settled with a completion above zero.
    Completed,
    /// Settled with a completion of zero.
    Forfeited,
    /// Reserved: no operation leads here.
    Cancelled,
}

impl PledgeStatus {
    /// The pledge still holds its stake in custody.
    pub open spec fn spec_is_live(self) -> bool {
        self == PledgeStatus::Active || self == PledgeStatus::Reported
    }

    /// Whether the pledge still holds its stake in custody.
    #[verifier::when_used_as_spec(spec_is_live)]
    pub fn is_live(self) -> (live: bool)
        ensures
            live == self.spec_is_live(),
    {
        self == PledgeStatus::Active || self == PledgeStatus::Reported
    }
}

impl Default for PledgeStatus {
    fn default() -> (status: Self)
        ensures
            status == PledgeStatus::Active,
    {
        PledgeStatus::Active
    }
}

/// One commitment: a stake locked against a goal and a deadline.
#[derive(Clone, Copy, Debug, PartialEq, Eq)]
pub struct Pledge {
    /// The owner, who created the pledge.
    pub user: Pubkey,
    /// The asset of the stake.
    pub mint: Pubkey,
    /// The stake that custody holds, in minor units. Never grows.
    pub stake_amount: u64,
    /// When the pledge ends, in Unix seconds.
    pub deadline: i64,
    pub status: PledgeStatus,
    /// The completion that was reported or settled, from 0 to 100.
    pub completion_percentage: Option<u8>,
    /// When the owner reported.
    pub reported_at: Option<i64>,
    /// When the pledge was created. With the owner it identifies the pledge.
    pub created_at: i64,
    /// Bump seed of the record's address.
    pub bump: u8,
    /// Bump seed of the custody account's address.
    pub vault_bump: u8,
}

impl Pledge {
    /// Bytes that the stored record takes, its 8-byte tag included.
    pub const INIT_SPACE: usize = 8 + 32 + 32 + 8 + 8 + 1 + 1 + 1 + 1 + 8 + 8 + 1 + 1;

    /// The seeds with which the pledge record signs for its custody account:
    /// the pledge seed, the owner's address, the time of creation as eight
    /// bytes, least significant first, and the bump seed of the record.
    pub open spec fn seeds(self) -> Seq<Seq<u8>> {
        seq![
            PLEDGE_SEED@,
            self.user.0@,
            spec_u64_to_le_bytes(self.created_at as u64),
            seq![self.bump],
        ]
    }

    /// The seeds with which the pledge record signs for its custody account.
    /// Owner and time of creation never change, so neither do the seeds.
    pub fn signer_seeds(&self) -> (seeds: Vec<Vec<u8>>)
        ensures
            seeds.deep_view() == self.seeds(),
    {
        let mut bump: Vec<u8> = Vec::new();
        bump.push(self.bump);
        let mut seeds: Vec<Vec<u8>> = Vec::new();
        seeds.push(slice_to_vec(PLEDGE_SEED.as_slice()));
        seeds.push(slice_to_vec(self.user.0.as_slice()));
        seeds.push(u64_to_le_bytes(self.created_at as u64));
        seeds.push(bump);
        assert(seeds.deep_view() =~~= self.seeds());
        seeds
    }
}

impl Default for Pledge {
    /// The blank record that `create_pledge` fills.
    fn default() -> (pledge: Self)
        ensures
            pledge == (Pledge {
                user: Pubkey::zero(),
                mint: Pubkey::zero(),
                stake_amount: 0,
                deadline: 0,
                status: PledgeStatus::Active,
                completion_percentage: None,
                reported_at: None,
                created_at: 0,
                bump: 0,
                vault_bump: 0,
            }),
    {
        Pledge {
            user: Pubkey::default(),
            mint: Pubkey::default(),
            stake_amount: 0,
            deadline: 0,
            status: PledgeStatus::Active,
            completion_percentage: None,
            reported_at: None,
            created_at: 0,
            bump: 0,
            vault_bump: 0,
        }
    }
}

/// A pledge was created and its stake moved into custody.
#[derive(Clone, Copy, Debug, PartialEq, Eq)]
pub struct PledgeCreated {
    pub pledge: Pubkey,
    pub user: Pubkey,
    pub stake_amount: u64,
    pub deadline: i64,
}

/// A pledge was edited and the penalty paid out of its stake.
#[derive(Clone, Copy, Debug, PartialEq, Eq)]
pub struct PledgeEdited {
    pub pledge: Pubkey,
    pub penalty_paid: u64,
}

/// The owner reported a completion.
#[derive(Clone, Copy, Debug, PartialEq, Eq)]
pub struct CompletionReported {
    pub pledge: Pubkey,
    pub completion_percentage: u8,
}

/// A pledge was settled with a completion above zero.
#[derive(Clone, Copy, Debug, PartialEq, Eq)]
pub struct PledgeCompleted {
    pub pledge: Pubkey,
    pub completion_percentage: u8,
    pub refund_amount: u64,
    pub fee_amount: u64,
}

/// A pledge was settled with a completion of zero.
#[derive(Clone, Copy, Debug, PartialEq, Eq)]
pub struct PledgeForfeited {
    pub pledge: Pubkey,
    pub treasury_amount: u64,
    pub charity_amount: u64,
}

/// The event of a settlement.
#[derive(Clone, Copy, Debug, PartialEq, Eq)]
pub enum SettlementEvent {
    Completed(PledgeCompleted),
    Forfeited(PledgeForfeited),
}

} // verus!
