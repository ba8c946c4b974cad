//! The fee engine: penalties, partial refunds and the treasury/charity split.
//!
//! All amounts are unsigned 64-bit minor units. Every product is checked: one
//! that leaves the 64-bit range is reported, never wrapped.

use vstd::prelude::*;

use crate::constants::BPS_DENOMINATOR;
use crate::errors::ErrorCode;

verus! {

/// The part of `stake_amount` that a completion of `completion_percentage`
/// percent has earned, rounded down.
pub open spec fn proportional_amount(stake_amount: u64, completion_percentage: u8) -> int {
    (stake_amount as int * completion_percentage as int) / 100
}

/// `bps` basis points of `amount`, rounded down.
pub open spec fn bps_of(amount: int, bps: u16) -> int {
    (amount * bps as int) / (BPS_DENOMINATOR as int)
}

/// The fee withheld from an earned amount: nothing at full completion, else
/// `fee_bps` basis points of it.
pub open spec fn partial_fee(proportional: int, completion_percentage: u8, fee_bps: u16) -> int {
    if completion_percentage == 100 {
        0
    } else {
        bps_of(proportional, fee_bps)
    }
}

/// What [`calculate_partial_refund`] returns: the refund and the fee, or the
/// first check that fails.
pub open spec fn partial_refund(stake_amount: u64, completion_percentage: u8, fee_bps: u16) -> Result<
    (u64, u64),
    ErrorCode,
> {
    let proportional = proportional_amount(stake_amount, completion_percentage);
    let fee = partial_fee(proportional, completion_percentage, fee_bps);
    if completion_percentage > 100 {
        Err(ErrorCode::InvalidCompletionPercentage)
    } else if stake_amount as int * completion_percentage as int > u64::MAX {
        Err(ErrorCode::Overflow)
    } else if completion_percentage != 100 && proportional * fee_bps as int > u64::MAX {
        Err(ErrorCode::Overflow)
    } else if fee > proportional {
        Err(ErrorCode::Underflow)
    } else {
        Ok(((proportional - fee) as u64, fee as u64))
    }
}

/// What [`calculate_split`] returns: the treasury's and the charity's part of
/// `amount`, or the first check that fails.
pub open spec fn split(amount: u64, treasury_split_bps: u16) -> Result<(u64, u64), ErrorCode> {
    let treasury = bps_of(amount as int, treasury_split_bps);
    if amount as int * treasury_split_bps as int > u64::MAX {
        Err(ErrorCode::Overflow)
    } else if treasury > amount {
        Err(ErrorCode::Underflow)
    } else {
        Ok((treasury as u64, (amount - treasury) as u64))
    }
}

/// What [`calculate_edit_penalty`] returns: the penalty on `remaining_stake`,
/// or an overflow.
pub open spec fn edit_penalty(remaining_stake: u64, penalty_bps: u16) -> Result<u64, ErrorCode> {
    if remaining_stake as int * penalty_bps as int > u64::MAX {
        Err(ErrorCode::Overflow)
    } else {
        Ok(bps_of(remaining_stake as int, penalty_bps) as u64)
    }
}

/// A rate of at most one whole takes at most the whole amount.
pub proof fn lemma_bps_of_bounded(amount: int, bps: u16)
    requires
        0 <= amount,
        bps <= BPS_DENOMINATOR,
    ensures
        0 <= bps_of(amount, bps) <= amount,
{
    assert(0 <= amount * bps as int <= amount * 10000) by (nonlinear_arith)
        requires
            0 <= amount,
            0 <= bps as int <= 10000,
    ;
}

/// Refund and fee for a pledge settled at `completion_percentage` percent.
///
/// The earned amount is `stake_amount * completion_percentage / 100`, rounded
/// down. At 100 percent all of it is refunded; below, `fee_bps` basis points of
/// it are withheld as the fee. Refund and fee always add up to the earned
/// amount, and a fee rate of at most 10000 bps never exceeds it.
pub fn calculate_partial_refund(stake_amount: u64, completion_percentage: u8, fee_bps: u16) -> (result:
    Result<(u64, u64), ErrorCode>)
    ensures
        result == partial_refund(stake_amount, completion_percentage, fee_bps),
        result matches Ok((refund, fee)) ==> {
            &&& refund + fee == proportional_amount(stake_amount, completion_percentage)
            &&& fee <= proportional_amount(stake_amount, completion_percentage)
            &&& refund <= stake_amount
            &&& completion_percentage == 100 ==> fee == 0 && refund == stake_amount
        },
        fee_bps <= BPS_DENOMINATOR ==> result != Err::<(u64, u64), ErrorCode>(ErrorCode::Underflow),
{
    if completion_percentage > 100 {
        return Err(ErrorCode::InvalidCompletionPercentage);
    }
    let proportional = stake_amount.checked_mul(completion_percentage as u64).ok_or(
        ErrorCode::Overflow,
    )?.checked_div(100).ok_or(ErrorCode::Overflow)?;
    proof {
        lemma_proportional_bounded(stake_amount, completion_percentage);
    }
    let fee = if completion_percentage == 100 {
        0
    } else {
        proportional.checked_mul(fee_bps as u64).ok_or(ErrorCode::Overflow)?.checked_div(
            BPS_DENOMINATOR,
        ).ok_or(ErrorCode::Overflow)?
    };
    proof {
        if fee_bps <= BPS_DENOMINATOR {
            lemma_bps_of_bounded(proportional as int, fee_bps);
        }
    }
    let refund = proportional.checked_sub(fee).ok_or(ErrorCode::Underflow)?;
    Ok((refund, fee))
}

/// The earned amount never exceeds the stake, and is all of it at 100 percent.
pub proof fn lemma_proportional_bounded(stake_amount: u64, completion_percentage: u8)
    requires
        completion_percentage <= 100,
    ensures
        0 <= proportional_amount(stake_amount, completion_percentage) <= stake_amount,
        completion_percentage == 100 ==> proportional_amount(stake_amount, completion_percentage)
            == stake_amount,
        completion_percentage == 0 ==> proportional_amount(stake_amount, completion_percentage) == 0,
{
    assert(0 <= stake_amount as int * completion_percentage as int <= stake_amount as int * 100)
        by (nonlinear_arith)
        requires
            0 <= stake_amount as int,
            0 <= completion_percentage as int <= 100,
    ;
}

/// For a positive stake, a completion of at most 100 percent and a fee rate of
/// at most 1000 bps, wherever the two products fit in 64 bits: a refund and a
/// fee come out, they add up to the earned amount, the fee is at most the
/// earned amount, and at full completion there is no fee.
pub proof fn lemma_partial_refund_shares(stake_amount: u64, completion_percentage: u8, fee_bps: u16)
    requires
        stake_amount > 0,
        completion_percentage <= 100,
        fee_bps <= 1000,
        stake_amount as int * completion_percentage as int <= u64::MAX,
        completion_percentage != 100 ==> proportional_amount(stake_amount, completion_percentage)
            * fee_bps as int <= u64::MAX,
    ensures
        partial_refund(stake_amount, completion_percentage, fee_bps) matches Ok((refund, fee)) && {
            &&& refund + fee == proportional_amount(stake_amount, completion_percentage)
            &&& fee <= proportional_amount(stake_amount, completion_percentage)
            &&& completion_percentage == 100 ==> fee == 0
        },
{
    lemma_proportional_bounded(stake_amount, completion_percentage);
    lemma_bps_of_bounded(proportional_amount(stake_amount, completion_percentage), fee_bps);
}

/// Under the conditions of [`lemma_partial_refund_shares`], the fee is zero at
/// full completion and only there, provided that below full completion the
/// fee rate takes at least one unit of the earned amount. Without that
/// proviso the fee rounds down to zero below full completion too.
pub proof fn lemma_fee_is_zero_at_full_completion_only(
    stake_amount: u64,
    completion_percentage: u8,
    fee_bps: u16,
)
    requires
        stake_amount > 0,
        completion_percentage <= 100,
        fee_bps <= 1000,
        stake_amount as int * completion_percentage as int <= u64::MAX,
        completion_percentage != 100 ==> BPS_DENOMINATOR <= proportional_amount(
            stake_amount,
            completion_percentage,
        ) * fee_bps as int <= u64::MAX,
    ensures
        partial_refund(stake_amount, completion_percentage, fee_bps) matches Ok((refund, fee)) && (fee
            == 0 <==> completion_percentage == 100),
{
    lemma_partial_refund_shares(stake_amount, completion_percentage, fee_bps);
}

/// For a treasury split of at most 10000 bps whose product with the amount
/// fits in 64 bits, the split succeeds and its two parts add up to the amount.
pub proof fn lemma_split_is_exact(amount: u64, treasury_split_bps: u16)
    requires
        treasury_split_bps <= BPS_DENOMINATOR,
        amount as int * treasury_split_bps as int <= u64::MAX,
    ensures
        split(amount, treasury_split_bps) matches Ok((treasury, charity)) && treasury + charity
            == amount,
{
    lemma_bps_of_bounded(amount as int, treasury_split_bps);
}

/// For a penalty rate of at most 1000 bps whose product with the remaining
/// stake fits in 64 bits, the penalty is at most the remaining stake.
pub proof fn lemma_edit_penalty_bounded(remaining_stake: u64, penalty_bps: u16)
    requires
        penalty_bps <= 1000,
        remaining_stake as int * penalty_bps as int <= u64::MAX,
    ensures
        edit_penalty(remaining_stake, penalty_bps) matches Ok(penalty) && penalty <= remaining_stake,
{
    lemma_bps_of_bounded(remaining_stake as int, penalty_bps);
}

/// Treasury's and charity's part of `amount`.
///
/// The treasury takes `treasury_split_bps` basis points, rounded down; the
/// charity takes the rest, so that the two parts add up to `amount` exactly.
pub fn calculate_split(amount: u64, treasury_split_bps: u16) -> (result: Result<(u64, u64), ErrorCode>)
    ensures
        result == split(amount, treasury_split_bps),
        result matches Ok((treasury, charity)) ==> treasury + charity == amount,
        treasury_split_bps <= BPS_DENOMINATOR ==> result != Err::<(u64, u64), ErrorCode>(
            ErrorCode::Underflow,
        ),
{
    let treasury = amount.checked_mul(treasury_split_bps as u64).ok_or(
        ErrorCode::Overflow,
    )?.checked_div(BPS_DENOMINATOR).ok_or(ErrorCode::Overflow)?;
    proof {
        if treasury_split_bps <= BPS_DENOMINATOR {
            lemma_bps_of_bounded(amount as int, treasury_split_bps);
        }
    }
    let charity = amount.checked_sub(treasury).ok_or(ErrorCode::Underflow)?;
    Ok((treasury, charity))
}

/// The penalty for editing a pledge: `penalty_bps` basis points of the
/// remaining stake, rounded down. A rate of at most 10000 bps never takes more
/// than the remaining stake.
pub fn calculate_edit_penalty(remaining_stake: u64, penalty_bps: u16) -> (result: Result<u64, ErrorCode>)
    ensures
        result == edit_penalty(remaining_stake, penalty_bps),
        penalty_bps <= BPS_DENOMINATOR ==> (result matches Ok(penalty) ==> penalty <= remaining_stake),
{
    proof {
        if penalty_bps <= BPS_DENOMINATOR {
            lemma_bps_of_bounded(remaining_stake as int, penalty_bps);
        }
    }
    Ok(
        remaining_stake.checked_mul(penalty_bps as u64).ok_or(ErrorCode::Overflow)?.checked_div(
            BPS_DENOMINATOR,
        ).ok_or(ErrorCode::Overflow)?,
    )
}

} // verus!
