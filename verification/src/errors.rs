//! Errors returned by the campaign operations, and their broad kinds.

use vstd::prelude::*;

verus! {

/// Why a campaign operation was rejected. Every rejection is total: the
/// operation commits none of its effects.
#[derive(Clone, Copy, Debug, PartialEq, Eq, Structural)]
pub enum FundrrError {
    /// The campaign is not in `Active` status, so it accepts no contribution.
    CampaignNotActive,
    /// The clock has passed the campaign's deadline.
    CampaignEnded,
    /// The caller is not the identity the operation is reserved to.
    Unauthorized,
    /// The operation is not legal in the campaign's current status or timing.
    InvalidState,
    /// A checked addition would exceed the numeric range.
    Overflow,
    /// The goal amount of a new campaign must be positive.
    InvalidGoalAmount,
    /// The duration of a new campaign must be positive.
    InvalidDuration,
    /// A required text field of a new campaign is empty.
    EmptyField,
    /// A text field of a new campaign exceeds its fixed capacity.
    FieldTooLong,
    /// A contribution amount must be positive.
    InvalidContributionAmount,
    /// The custodial balance holds nothing above the reserved minimum.
    InsufficientFunds,
    /// A campaign that has received contributions cannot be cancelled.
    CannotCancelFunded,
    /// Refunds are only available after the deadline of a campaign that
    /// missed its goal.
    RefundNotAllowed,
}

/// The broad classes the errors fall into.
#[derive(Clone, Copy, Debug, PartialEq, Eq, Structural)]
pub enum ErrorKind {
    /// Bad input: zero amounts, empty or oversized text, non-positive spans.
    Validation,
    /// The operation is not valid in the campaign's current status or timing.
    StateConflict,
    /// The caller is not the identity the operation requires.
    Authorization,
    /// A checked numeric operation would overflow.
    Arithmetic,
    /// The external custody cannot back the requested movement.
    CustodyFailure,
}

/// The kind each error belongs to.
pub open spec fn kind_of(e: FundrrError) -> ErrorKind {
    match e {
        FundrrError::CampaignNotActive => ErrorKind::StateConflict,
        FundrrError::CampaignEnded => ErrorKind::StateConflict,
        FundrrError::Unauthorized => ErrorKind::Authorization,
        FundrrError::InvalidState => ErrorKind::StateConflict,
        FundrrError::Overflow => ErrorKind::Arithmetic,
        FundrrError::InvalidGoalAmount => ErrorKind::Validation,
        FundrrError::InvalidDuration => ErrorKind::Validation,
        FundrrError::EmptyField => ErrorKind::Validation,
        FundrrError::FieldTooLong => ErrorKind::Validation,
        FundrrError::InvalidContributionAmount => ErrorKind::Validation,
        FundrrError::InsufficientFunds => ErrorKind::CustodyFailure,
        FundrrError::CannotCancelFunded => ErrorKind::StateConflict,
        FundrrError::RefundNotAllowed => ErrorKind::StateConflict,
    }
}

/// The short human-readable description each error carries.
pub open spec fn message_of(e: FundrrError) -> Seq<char> {
    match e {
        FundrrError::CampaignNotActive => "Campaign is not active"@,
        FundrrError::CampaignEnded => "Campaign has ended"@,
        FundrrError::Unauthorized => "Unauthorized access"@,
        FundrrError::InvalidState => "Operation not valid in the current state"@,
        FundrrError::Overflow => "Arithmetic overflow"@,
        FundrrError::InvalidGoalAmount => "Invalid goal amount"@,
        FundrrError::InvalidDuration => "Invalid duration"@,
        FundrrError::EmptyField => "Required field is empty"@,
        FundrrError::FieldTooLong => "Field exceeds its capacity"@,
        FundrrError::InvalidContributionAmount => "Invalid contribution amount"@,
        FundrrError::InsufficientFunds => "Insufficient funds"@,
        FundrrError::CannotCancelFunded => "Cannot cancel funded campaign"@,
        FundrrError::RefundNotAllowed => "Refund is not allowed"@,
    }
}

impl FundrrError {
    /// The broad class this error belongs to.
    pub fn kind(self) -> (k: ErrorKind)
        ensures
            k == kind_of(self),
    {
        match self {
            FundrrError::CampaignNotActive => ErrorKind::StateConflict,
            FundrrError::CampaignEnded => ErrorKind::StateConflict,
            FundrrError::Unauthorized => ErrorKind::Authorization,
            FundrrError::InvalidState => ErrorKind::StateConflict,
            FundrrError::Overflow => ErrorKind::Arithmetic,
            FundrrError::InvalidGoalAmount => ErrorKind::Validation,
            FundrrError::InvalidDuration => ErrorKind::Validation,
            FundrrError::EmptyField => ErrorKind::Validation,
            FundrrError::FieldTooLong => ErrorKind::Validation,
            FundrrError::InvalidContributionAmount => ErrorKind::Validation,
            FundrrError::InsufficientFunds => ErrorKind::CustodyFailure,
            FundrrError::CannotCancelFunded => ErrorKind::StateConflict,
            FundrrError::RefundNotAllowed => ErrorKind::StateConflict,
        }
    }

    /// A short human-readable description of the error.
    pub fn message(self) -> (m: &'static str)
        ensures
            m@ == message_of(self),
    {
        match self {
            FundrrError::CampaignNotActive => "Campaign is not active",
            FundrrError::CampaignEnded => "Campaign has ended",
            FundrrError::Unauthorized => "Unauthorized access",
            FundrrError::InvalidState => "Operation not valid in the current state",
            FundrrError::Overflow => "Arithmetic overflow",
            FundrrError::InvalidGoalAmount => "Invalid goal amount",
            FundrrError::InvalidDuration => "Invalid duration",
            FundrrError::EmptyField => "Required field is empty",
            FundrrError::FieldTooLong => "Field exceeds its capacity",
            FundrrError::InvalidContributionAmount => "Invalid contribution amount",
            FundrrError::InsufficientFunds => "Insufficient funds",
            FundrrError::CannotCancelFunded => "Cannot cancel funded campaign",
            FundrrError::RefundNotAllowed => "Refund is not allowed",
        }
    }
}

} // verus!
