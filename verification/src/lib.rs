//! Crowdfunding escrow engine.
//!
//! A creator opens a time-boxed fundraising campaign with a goal; contributors
//! fund it until the deadline or the goal is reached; custody of the raised
//! funds is released to exactly one authorized party: the creator on success,
//! or the contributors as refunds on failure.
//!
//! The library is the campaign state machine over plain values. The host
//! ledger that authenticates signers, keeps the clock, and moves currency is
//! an external collaborator: callers read the clock and the custodial balance
//! once per operation and hand them in, perform the actual value transfer,
//! and commit the returned state only when that transfer succeeded.

pub mod arith;
pub mod campaign;
pub mod errors;
pub mod events;
pub mod identity;
pub mod laws;
pub mod ledger;
pub mod status;

pub use campaign::{Campaign, CampaignCounter};
pub use ledger::{ContributionLedger, ContributionRecord};
pub use errors::{ErrorKind, FundrrError};
pub use events::{CampaignCancelled, CampaignCreated, ContributionMade, FundsWithdrawn};
pub use identity::Identity;
pub use status::CampaignStatus;
