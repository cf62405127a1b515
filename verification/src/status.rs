//! Campaign lifecycle states and the order they may move in.

use vstd::prelude::*;

verus! {

/// The lifecycle state of a campaign.
///
/// Transitions move only forward: `Active -> Funded -> Completed` on the
/// success path, `Active -> Completed` when the creator withdraws a partial
/// raise after expiry, and `Active -> Cancelled` while nothing has been
/// raised. `Completed` and `Cancelled` are terminal.
#[derive(Clone, Copy, Debug, PartialEq, Eq, Structural)]
pub enum CampaignStatus {
    /// Accepting contributions.
    Active,
    /// The goal has been reached; only withdrawal remains.
    Funded,
    /// The raised funds have been withdrawn.
    Completed,
    /// Closed by the creator before any contribution landed.
    Cancelled,
}

impl CampaignStatus {
    /// A terminal state permits no further mutation of the campaign.
    pub open spec fn is_terminal(self) -> bool {
        self == CampaignStatus::Completed || self == CampaignStatus::Cancelled
    }
}

/// The forward order of the state machine: every operation of this library
/// moves a campaign's status from `pre` to a `post` permitted here, never
/// backward.
pub open spec fn status_progresses(pre: CampaignStatus, post: CampaignStatus) -> bool {
    match pre {
        CampaignStatus::Active => true,
        CampaignStatus::Funded => post == CampaignStatus::Funded || post == CampaignStatus::Completed,
        CampaignStatus::Completed => post == CampaignStatus::Completed,
        CampaignStatus::Cancelled => post == CampaignStatus::Cancelled,
    }
}

} // verus!
