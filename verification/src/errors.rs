//! The errors of the protocol and their classes.

use vstd::prelude::*;

verus! {

/// Why an operation was rejected. A rejected operation changes nothing.
#[derive(Clone, Copy, Debug, PartialEq, Eq, Structural)]
pub enum ErrorCode {
    /// The caller is not the admin.
    Unauthorized,
    /// The caller is not the owner of the pledge.
    NotPledgeOwner,
    /// The program is paused.
    ProgramPaused,
    /// The treasury split is above 10000 bps.
    InvalidTreasurySplit,
    /// A fee or penalty is above 1000 bps.
    InvalidFee,
    /// The timestamp exceeds the clock drift tolerance.
    InvalidTimestamp,
    /// The deadline is not in the future.
    InvalidDeadline,
    /// The stake is zero.
    InvalidStakeAmount,
    /// The pledge is not active.
    PledgeNotActive,
    /// The pledge is not reported.
    PledgeNotReported,
    /// The deadline has not passed yet.
    DeadlineNotPassed,
    /// The deadline has already passed.
    DeadlineAlreadyPassed,
    /// The grace period has not ended.
    GracePeriodNotEnded,
    /// The grace period has ended.
    GracePeriodEnded,
    /// The completion percentage is above 100.
    InvalidCompletionPercentage,
    /// A computation left the range of its integer type upwards.
    Overflow,
    /// A computation left the range of its integer type downwards.
    Underflow,
    /// A token account holds another asset than the pledge.
    InvalidMint,
    /// A token account belongs to another party than expected.
    InvalidTokenAccountOwner,
}

/// The classes into which the protocol sorts its errors.
#[derive(Clone, Copy, Debug, PartialEq, Eq, Structural)]
pub enum ErrorKind {
    /// The wrong caller.
    Authorization,
    /// The wrong status, or a paused program where the pause applies.
    StateViolation,
    /// A condition on the deadline, the report window or the grace period is unmet.
    TimeViolation,
    /// A percentage, a rate or an amount is out of bounds.
    RangeViolation,
    /// Overflow or underflow in a fee computation.
    Arithmetic,
}

impl ErrorCode {
    /// The class of this error. The two token-account errors belong to none:
    /// the host raises them when it validates accounts, no operation here does.
    pub open spec fn spec_kind(self) -> Option<ErrorKind> {
        match self {
            ErrorCode::Unauthorized | ErrorCode::NotPledgeOwner => Some(ErrorKind::Authorization),
            ErrorCode::ProgramPaused | ErrorCode::PledgeNotActive | ErrorCode::PledgeNotReported => Some(
                ErrorKind::StateViolation,
            ),
            ErrorCode::InvalidTimestamp
            | ErrorCode::InvalidDeadline
            | ErrorCode::DeadlineNotPassed
            | ErrorCode::DeadlineAlreadyPassed
            | ErrorCode::GracePeriodNotEnded
            | ErrorCode::GracePeriodEnded => Some(ErrorKind::TimeViolation),
            ErrorCode::InvalidTreasurySplit
            | ErrorCode::InvalidFee
            | ErrorCode::InvalidStakeAmount
            | ErrorCode::InvalidCompletionPercentage => Some(ErrorKind::RangeViolation),
            ErrorCode::Overflow | ErrorCode::Underflow => Some(ErrorKind::Arithmetic),
            ErrorCode::InvalidMint | ErrorCode::InvalidTokenAccountOwner => None,
        }
    }

    /// The message of this error.
    pub open spec fn message_text(self) -> Seq<char> {
        match self {
            ErrorCode::Unauthorized => "Unauthorized - not admin"@,
            ErrorCode::NotPledgeOwner => "Unauthorized - not pledge owner"@,
            ErrorCode::ProgramPaused => "Program is paused"@,
            ErrorCode::InvalidTreasurySplit => "Invalid treasury split - must be <= 10000 bps"@,
            ErrorCode::InvalidFee => "Invalid fee - must be <= 1000 bps (10%)"@,
            ErrorCode::InvalidTimestamp => "Invalid timestamp - exceeds clock drift tolerance"@,
            ErrorCode::InvalidDeadline => "Invalid deadline - must be in the future"@,
            ErrorCode::InvalidStakeAmount => "Invalid stake amount - must be greater than 0"@,
            ErrorCode::PledgeNotActive => "Pledge is not active"@,
            ErrorCode::PledgeNotReported => "Pledge is not reported"@,
            ErrorCode::DeadlineNotPassed => "Deadline has not passed yet"@,
            ErrorCode::DeadlineAlreadyPassed => "Deadline has already passed"@,
            ErrorCode::GracePeriodNotEnded => "Grace period has not ended"@,
            ErrorCode::GracePeriodEnded => "Grace period has ended - cannot report"@,
            ErrorCode::InvalidCompletionPercentage => "Invalid completion percentage - must be 0-100"@,
            ErrorCode::Overflow => "Numeric overflow"@,
            ErrorCode::Underflow => "Numeric underflow"@,
            ErrorCode::InvalidMint => "Invalid token mint"@,
            ErrorCode::InvalidTokenAccountOwner => "Invalid token account owner"@,
        }
    }

    /// The message of this error, for a person to read.
    pub fn message(self) -> (text: String)
        ensures
            text@ == self.message_text(),
    {
        let text = match self {
            ErrorCode::Unauthorized => "Unauthorized - not admin",
            ErrorCode::NotPledgeOwner => "Unauthorized - not pledge owner",
            ErrorCode::ProgramPaused => "Program is paused",
            ErrorCode::InvalidTreasurySplit => "Invalid treasury split - must be <= 10000 bps",
            ErrorCode::InvalidFee => "Invalid fee - must be <= 1000 bps (10%)",
            ErrorCode::InvalidTimestamp => "Invalid timestamp - exceeds clock drift tolerance",
            ErrorCode::InvalidDeadline => "Invalid deadline - must be in the future",
            ErrorCode::InvalidStakeAmount => "Invalid stake amount - must be greater than 0",
            ErrorCode::PledgeNotActive => "Pledge is not active",
            ErrorCode::PledgeNotReported => "Pledge is not reported",
            ErrorCode::DeadlineNotPassed => "Deadline has not passed yet",
            ErrorCode::DeadlineAlreadyPassed => "Deadline has already passed",
            ErrorCode::GracePeriodNotEnded => "Grace period has not ended",
            ErrorCode::GracePeriodEnded => "Grace period has ended - cannot report",
            ErrorCode::InvalidCompletionPercentage => "Invalid completion percentage - must be 0-100",
            ErrorCode::Overflow => "Numeric overflow",
            ErrorCode::Underflow => "Numeric underflow",
            ErrorCode::InvalidMint => "Invalid token mint",
            ErrorCode::InvalidTokenAccountOwner => "Invalid token account owner",
        };
        text.to_owned()
    }

    /// The class of this error, if it has one.
    #[verifier::when_used_as_spec(spec_kind)]
    pub fn kind(self) -> (kind: Option<ErrorKind>)
        ensures
            kind == self.spec_kind(),
    {
        match self {
            ErrorCode::Unauthorized | ErrorCode::NotPledgeOwner => Some(ErrorKind::Authorization),
            ErrorCode::ProgramPaused | ErrorCode::PledgeNotActive | ErrorCode::PledgeNotReported => Some(
                ErrorKind::StateViolation,
            ),
            ErrorCode::InvalidTimestamp
            | ErrorCode::InvalidDeadline
            | ErrorCode::DeadlineNotPassed
            | ErrorCode::DeadlineAlreadyPassed
            | ErrorCode::GracePeriodNotEnded
            | ErrorCode::GracePeriodEnded => Some(ErrorKind::TimeViolation),
            ErrorCode::InvalidTreasurySplit
            | ErrorCode::InvalidFee
            | ErrorCode::InvalidStakeAmount
            | ErrorCode::InvalidCompletionPercentage => Some(ErrorKind::RangeViolation),
            ErrorCode::Overflow | ErrorCode::Underflow => Some(ErrorKind::Arithmetic),
            ErrorCode::InvalidMint | ErrorCode::InvalidTokenAccountOwner => None,
        }
    }
}

} // verus!
