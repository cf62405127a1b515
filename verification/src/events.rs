//! Immutable event records produced by successful mutating operations.
//!
//! The engine produces these for external indexing; it never consumes them.

use vstd::prelude::*;

use crate::identity::Identity;

verus! {

/// A campaign was created.
#[derive(Clone, Debug, PartialEq, Eq)]
pub struct CampaignCreated {
    pub campaign_id: u64,
    pub creator: Identity,
    pub name: String,
    pub goal_amount: u64,
    pub deadline: i64,
    pub timestamp: i64,
}

/// A contribution was accepted.
#[derive(Clone, Copy, Debug, PartialEq, Eq, Structural)]
pub struct ContributionMade {
    pub campaign_id: u64,
    pub contributor: Identity,
    pub amount: u64,
    pub timestamp: i64,
}

/// The raised funds were released to the creator.
#[derive(Clone, Copy, Debug, PartialEq, Eq, Structural)]
pub struct FundsWithdrawn {
    pub campaign_id: u64,
    pub recipient: Identity,
    pub amount: u64,
    pub timestamp: i64,
}

/// The campaign was cancelled by its creator while nothing stood raised.
#[derive(Clone, Copy, Debug, PartialEq, Eq, Structural)]
pub struct CampaignCancelled {
    pub campaign_id: u64,
    pub creator: Identity,
    pub timestamp: i64,
}

} // verus!
