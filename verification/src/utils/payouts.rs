//! What a settlement or an edit pays, and to whom.

use vstd::prelude::*;

use crate::errors::ErrorCode;
use crate::state::vault::{
    lemma_total_paid_concat,
    lemma_total_paid_payment,
    payment,
    push_payment,
    total_paid,
    Disbursement,
    Payee,
};
use crate::utils::fees::{
    calculate_partial_refund,
    calculate_split,
    lemma_proportional_bounded,
    partial_refund,
    proportional_amount,
    split,
};

verus! {

/// How a settlement divides the stake.
#[derive(Clone, Copy, Debug, PartialEq, Eq, Structural)]
pub struct Settlement {
    /// What the owner gets back.
    pub refund_amount: u64,
    /// The fee withheld from the earned part of the stake.
    pub fee_amount: u64,
    /// The part of the stake that was not earned.
    pub forfeited_amount: u64,
    /// The treasury's part of fee and forfeiture.
    pub treasury_amount: u64,
    /// The charity's part of fee and forfeiture.
    pub charity_amount: u64,
}

/// What an edit costs, and how the penalty is shared.
#[derive(Clone, Copy, Debug, PartialEq, Eq, Structural)]
pub struct Penalty {
    /// The penalty taken out of the stake.
    pub amount: u64,
    /// The treasury's part of the penalty.
    pub treasury_amount: u64,
    /// The charity's part of the penalty.
    pub charity_amount: u64,
}

/// What [`calculate_settlement`] returns: the division of `stake_amount` at
/// `completion_percentage` percent, or the first check that fails.
pub open spec fn settlement(
    stake_amount: u64,
    completion_percentage: u8,
    partial_fee_bps: u16,
    treasury_split_bps: u16,
) -> Result<Settlement, ErrorCode> {
    match partial_refund(stake_amount, completion_percentage, partial_fee_bps) {
        Err(e) => Err(e),
        Ok((refund_amount, fee_amount)) => {
            let forfeited_amount = (stake_amount - refund_amount - fee_amount) as u64;
            match split((fee_amount + forfeited_amount) as u64, treasury_split_bps) {
                Err(e) => Err(e),
                Ok((treasury_amount, charity_amount)) => Ok(
                    Settlement {
                        refund_amount,
                        fee_amount,
                        forfeited_amount,
                        treasury_amount,
                        charity_amount,
                    },
                ),
            }
        },
    }
}

/// The division of a stake at its settlement.
///
/// The owner is refunded the earned part of the stake less the fee. The fee
/// and the part that was not earned are split between treasury and charity.
/// The three payments add up to the stake.
pub fn calculate_settlement(
    stake_amount: u64,
    completion_percentage: u8,
    partial_fee_bps: u16,
    treasury_split_bps: u16,
) -> (result: Result<Settlement, ErrorCode>)
    ensures
        result == settlement(stake_amount, completion_percentage, partial_fee_bps, treasury_split_bps),
        result matches Ok(s) ==> {
            &&& s.refund_amount + s.fee_amount + s.forfeited_amount == stake_amount
            &&& s.treasury_amount + s.charity_amount == s.fee_amount + s.forfeited_amount
            &&& s.refund_amount + s.treasury_amount + s.charity_amount == stake_amount
            &&& s.refund_amount + s.fee_amount == proportional_amount(
                stake_amount,
                completion_percentage,
            )
        },
{
    let (refund_amount, fee_amount) = calculate_partial_refund(
        stake_amount,
        completion_percentage,
        partial_fee_bps,
    )?;
    proof {
        lemma_proportional_bounded(stake_amount, completion_percentage);
    }
    let forfeited_amount = stake_amount.checked_sub(refund_amount).ok_or(
        ErrorCode::Underflow,
    )?.checked_sub(fee_amount).ok_or(ErrorCode::Underflow)?;
    let total_to_split = fee_amount.checked_add(forfeited_amount).ok_or(ErrorCode::Overflow)?;
    let (treasury_amount, charity_amount) = calculate_split(total_to_split, treasury_split_bps)?;
    Ok(Settlement { refund_amount, fee_amount, forfeited_amount, treasury_amount, charity_amount })
}

/// Every successful settlement pays out the stake exactly.
pub proof fn lemma_settlement_pays_stake(
    stake_amount: u64,
    completion_percentage: u8,
    partial_fee_bps: u16,
    treasury_split_bps: u16,
)
    ensures
        settlement(stake_amount, completion_percentage, partial_fee_bps, treasury_split_bps) matches Ok(
            s,
        ) ==> {
            &&& completion_percentage <= 100
            &&& s.refund_amount + s.fee_amount + s.forfeited_amount == stake_amount
            &&& s.treasury_amount + s.charity_amount == s.fee_amount + s.forfeited_amount
            &&& total_paid(s.payments()) == stake_amount
        },
{
    if let Ok(s) = settlement(
        stake_amount,
        completion_percentage,
        partial_fee_bps,
        treasury_split_bps,
    ) {
        lemma_proportional_bounded(stake_amount, completion_percentage);
        s.lemma_payments_total();
    }
}

impl Settlement {
    /// The transfers that carry out the settlement, in the order in which they
    /// are made: to the owner, to the treasury, to the charity. An amount of
    /// zero is not transferred.
    pub open spec fn payments(self) -> Seq<Disbursement> {
        payment(Payee::Owner, self.refund_amount) + payment(Payee::Treasury, self.treasury_amount)
            + payment(Payee::Charity, self.charity_amount)
    }

    /// The transfers that carry out the settlement.
    pub fn disbursements(&self) -> (payments: Vec<Disbursement>)
        ensures
            payments@ == self.payments(),
    {
        let mut payments: Vec<Disbursement> = Vec::new();
        push_payment(&mut payments, Payee::Owner, self.refund_amount);
        push_payment(&mut payments, Payee::Treasury, self.treasury_amount);
        push_payment(&mut payments, Payee::Charity, self.charity_amount);
        payments
    }

    /// The transfers of a settlement add up to refund, treasury's and
    /// charity's part.
    pub proof fn lemma_payments_total(self)
        ensures
            total_paid(self.payments()) == self.refund_amount + self.treasury_amount
                + self.charity_amount,
    {
        let owner = payment(Payee::Owner, self.refund_amount);
        let treasury = payment(Payee::Treasury, self.treasury_amount);
        let charity = payment(Payee::Charity, self.charity_amount);
        lemma_total_paid_payment(Payee::Owner, self.refund_amount);
        lemma_total_paid_payment(Payee::Treasury, self.treasury_amount);
        lemma_total_paid_payment(Payee::Charity, self.charity_amount);
        lemma_total_paid_concat(owner, treasury);
        lemma_total_paid_concat(owner + treasury, charity);
    }
}

impl Penalty {
    /// The transfers that pay the penalty: to the treasury, then to the
    /// charity. An amount of zero is not transferred.
    pub open spec fn payments(self) -> Seq<Disbursement> {
        payment(Payee::Treasury, self.treasury_amount) + payment(Payee::Charity, self.charity_amount)
    }

    /// The transfers that pay the penalty.
    pub fn disbursements(&self) -> (payments: Vec<Disbursement>)
        ensures
            payments@ == self.payments(),
    {
        let mut payments: Vec<Disbursement> = Vec::new();
        push_payment(&mut payments, Payee::Treasury, self.treasury_amount);
        push_payment(&mut payments, Payee::Charity, self.charity_amount);
        payments
    }

    /// The transfers of a penalty add up to treasury's and charity's part.
    pub proof fn lemma_payments_total(self)
        ensures
            total_paid(self.payments()) == self.treasury_amount + self.charity_amount,
    {
        lemma_total_paid_payment(Payee::Treasury, self.treasury_amount);
        lemma_total_paid_payment(Payee::Charity, self.charity_amount);
        lemma_total_paid_concat(
            payment(Payee::Treasury, self.treasury_amount),
            payment(Payee::Charity, self.charity_amount),
        );
    }
}

} // verus!
