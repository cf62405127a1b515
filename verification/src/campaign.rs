//! The campaign record and its state machine.
//!
//! Every operation is total and transactional: it either commits all of its
//! field updates and returns the event record it produced, or it returns an
//! error and leaves the campaign exactly as it was.
//!
//! The host ledger is an external collaborator. Callers read the clock once
//! per operation and pass it as `now`; for a withdrawal they also pass the
//! custodial balance and the rent-reserved minimum that only the host ledger
//! knows. The value movement itself (contributor to custody, custody to
//! creator) is the caller's step, taken only when the operation here
//! succeeded.

use vstd::prelude::*;
use vstd::string::StrSliceExecFns;

use crate::errors::FundrrError;
use crate::events::{CampaignCancelled, CampaignCreated, ContributionMade, FundsWithdrawn};
use crate::identity::Identity;
use crate::status::CampaignStatus;

verus! {

/// Capacity of the title field, in characters.
pub const MAX_TITLE_LEN: usize = 50;

/// Capacity of the description field, in characters.
pub const MAX_DESCRIPTION_LEN: usize = 500;

/// Capacity of the metadata URI field, in characters.
pub const MAX_METADATA_URI_LEN: usize = 200;

/// One fundraising effort: its metadata, its running totals, and its
/// lifecycle status.
#[derive(Clone, Debug, PartialEq, Eq)]
pub struct Campaign {
    /// Unique identifier, drawn from a [`CampaignCounter`]; never reused.
    pub id: u64,
    /// Identity entitled to withdraw on success and to cancel while unfunded.
    pub creator: Identity,
    /// Campaign title; non-empty, at most [`MAX_TITLE_LEN`] characters.
    pub title: String,
    /// Campaign description; non-empty, at most [`MAX_DESCRIPTION_LEN`]
    /// characters.
    pub description: String,
    /// Link to further material; at most [`MAX_METADATA_URI_LEN`] characters.
    pub metadata_uri: String,
    /// The funding goal; positive.
    pub goal_amount: u64,
    /// Sum of accepted contributions not yet refunded.
    pub raised_amount: u64,
    /// Timestamp of creation.
    pub created_at: i64,
    /// Contributions are accepted while the clock is at or before this
    /// timestamp.
    pub deadline: i64,
    /// Where the campaign stands in its lifecycle.
    pub status: CampaignStatus,
    /// Number of accepted contribution calls, not of distinct contributors.
    pub contributor_count: u64,
}

/// The fields no operation after creation ever changes: everything but
/// `raised_amount`, `status`, and `contributor_count`.
pub open spec fn same_identity(pre: Campaign, post: Campaign) -> bool {
    &&& post.id == pre.id
    &&& post.creator == pre.creator
    &&& post.title == pre.title
    &&& post.description == pre.description
    &&& post.metadata_uri == pre.metadata_uri
    &&& post.goal_amount == pre.goal_amount
    &&& post.created_at == pre.created_at
    &&& post.deadline == pre.deadline
}

/// When a creation request is valid: positive goal and duration, title and
/// description present, all text within its capacity, and a deadline that
/// still fits the timestamp range.
pub open spec fn creation_allowed(
    goal_amount: u64,
    duration: i64,
    title: Seq<char>,
    description: Seq<char>,
    metadata_uri: Seq<char>,
    now: i64,
) -> bool {
    &&& goal_amount > 0
    &&& duration > 0
    &&& title.len() > 0
    &&& description.len() > 0
    &&& title.len() <= MAX_TITLE_LEN
    &&& description.len() <= MAX_DESCRIPTION_LEN
    &&& metadata_uri.len() <= MAX_METADATA_URI_LEN
    &&& now + duration <= i64::MAX
}

/// The error a rejected creation reports, checks in order: goal, duration,
/// presence of the required text, capacities, deadline arithmetic.
pub open spec fn creation_error(
    goal_amount: u64,
    duration: i64,
    title: Seq<char>,
    description: Seq<char>,
    metadata_uri: Seq<char>,
    now: i64,
) -> FundrrError
    recommends
        !creation_allowed(goal_amount, duration, title, description, metadata_uri, now),
{
    if goal_amount == 0 {
        FundrrError::InvalidGoalAmount
    } else if duration <= 0 {
        FundrrError::InvalidDuration
    } else if title.len() == 0 || description.len() == 0 {
        FundrrError::EmptyField
    } else if title.len() > MAX_TITLE_LEN || description.len() > MAX_DESCRIPTION_LEN
        || metadata_uri.len() > MAX_METADATA_URI_LEN {
        FundrrError::FieldTooLong
    } else {
        FundrrError::Overflow
    }
}

/// When an initialization request with an explicit deadline is valid: the
/// same demands creation enforces, with the given deadline standing where
/// `now + duration` would, so it must lie strictly after `now`.
pub open spec fn initialization_allowed(
    goal_amount: u64,
    deadline: i64,
    title: Seq<char>,
    description: Seq<char>,
    now: i64,
) -> bool {
    &&& goal_amount > 0
    &&& deadline > now
    &&& title.len() > 0
    &&& description.len() > 0
    &&& title.len() <= MAX_TITLE_LEN
    &&& description.len() <= MAX_DESCRIPTION_LEN
}

/// The error a rejected initialization reports, checks in order: goal,
/// deadline, presence of the required text, capacities.
pub open spec fn initialization_error(
    goal_amount: u64,
    deadline: i64,
    title: Seq<char>,
    description: Seq<char>,
    now: i64,
) -> FundrrError
    recommends
        !initialization_allowed(goal_amount, deadline, title, description, now),
{
    if goal_amount == 0 {
        FundrrError::InvalidGoalAmount
    } else if deadline <= now {
        FundrrError::InvalidDuration
    } else if title.len() == 0 || description.len() == 0 {
        FundrrError::EmptyField
    } else {
        FundrrError::FieldTooLong
    }
}

/// When a contribution of `amount` at time `now` is accepted: the campaign is
/// active, the deadline has not passed, the amount is positive, and both
/// running totals still fit their range.
pub open spec fn contribution_allowed(c: Campaign, amount: u64, now: i64) -> bool {
    &&& amount > 0
    &&& c.status == CampaignStatus::Active
    &&& now <= c.deadline
    &&& c.raised_amount + amount <= u64::MAX
    &&& c.contributor_count < u64::MAX
}

/// The error a rejected contribution reports, checks in order: amount,
/// status, deadline, arithmetic.
pub open spec fn contribution_error(c: Campaign, amount: u64, now: i64) -> FundrrError
    recommends
        !contribution_allowed(c, amount, now),
{
    if amount == 0 {
        FundrrError::InvalidContributionAmount
    } else if c.status != CampaignStatus::Active {
        FundrrError::CampaignNotActive
    } else if now > c.deadline {
        FundrrError::CampaignEnded
    } else {
        FundrrError::Overflow
    }
}

/// The transition an accepted contribution makes: both totals grow, and the
/// campaign becomes `Funded` in the very call whose update reaches the goal.
pub open spec fn contribute_accepted(pre: Campaign, amount: u64, now: i64, post: Campaign) -> bool {
    &&& contribution_allowed(pre, amount, now)
    &&& same_identity(pre, post)
    &&& post.raised_amount == pre.raised_amount + amount
    &&& post.contributor_count == pre.contributor_count + 1
    &&& post.status == if post.raised_amount >= pre.goal_amount {
        CampaignStatus::Funded
    } else {
        CampaignStatus::Active
    }
}

/// When `caller` may withdraw at time `now`: only the creator, and only from
/// a funded campaign, or from an expired active one if the policy flag
/// `allow_partial` permits withdrawing a partial raise after expiry.
pub open spec fn withdraw_allowed(c: Campaign, caller: Identity, now: i64, allow_partial: bool) -> bool {
    &&& caller == c.creator
    &&& (c.status == CampaignStatus::Funded
        || (c.status == CampaignStatus::Active && now > c.deadline && allow_partial))
}

/// What the custody holds above the rent-reserved minimum; the one
/// deliberately saturating computation, since an underfunded custody simply
/// has nothing to release.
pub open spec fn available_above_reserve(custody_balance: u64, rent_minimum: u64) -> u64 {
    if custody_balance >= rent_minimum {
        (custody_balance - rent_minimum) as u64
    } else {
        0
    }
}

/// The error a rejected withdrawal reports, checks in order: authorization,
/// state and timing, then the custody floor.
pub open spec fn withdraw_error(
    c: Campaign,
    caller: Identity,
    now: i64,
    allow_partial: bool,
    custody_balance: u64,
    rent_minimum: u64,
) -> FundrrError
    recommends
        !(withdraw_allowed(c, caller, now, allow_partial)
            && available_above_reserve(custody_balance, rent_minimum) > 0),
{
    if caller != c.creator {
        FundrrError::Unauthorized
    } else if !(c.status == CampaignStatus::Funded
        || (c.status == CampaignStatus::Active && now > c.deadline && allow_partial)) {
        FundrrError::InvalidState
    } else {
        FundrrError::InsufficientFunds
    }
}

/// The transition an accepted withdrawal makes: the campaign closes as
/// `Completed` and nothing else moves; the released amount is what custody
/// held above the reserve.
pub open spec fn withdraw_accepted(
    pre: Campaign,
    caller: Identity,
    now: i64,
    custody_balance: u64,
    rent_minimum: u64,
    allow_partial: bool,
    post: Campaign,
) -> bool {
    &&& withdraw_allowed(pre, caller, now, allow_partial)
    &&& available_above_reserve(custody_balance, rent_minimum) > 0
    &&& same_identity(pre, post)
    &&& post.raised_amount == pre.raised_amount
    &&& post.contributor_count == pre.contributor_count
    &&& post.status == CampaignStatus::Completed
}

/// When `caller` may cancel: only the creator, only while the campaign is
/// active, and only while nothing raised stands on the books. The deciding
/// quantity is the raised amount: while any contribution stands,
/// cancellation is impossible, and only a refund after expiry can lower the
/// raised amount, so a failed campaign whose every contribution was
/// returned may be closed by cancellation as well.
pub open spec fn cancel_allowed(c: Campaign, caller: Identity) -> bool {
    &&& caller == c.creator
    &&& c.status == CampaignStatus::Active
    &&& c.raised_amount == 0
}

/// The error a rejected cancellation reports, checks in order:
/// authorization, status, then the raised total.
pub open spec fn cancel_error(c: Campaign, caller: Identity) -> FundrrError
    recommends
        !cancel_allowed(c, caller),
{
    if caller != c.creator {
        FundrrError::Unauthorized
    } else if c.status != CampaignStatus::Active {
        FundrrError::InvalidState
    } else {
        FundrrError::CannotCancelFunded
    }
}

/// The transition an accepted cancellation makes: the campaign closes as
/// `Cancelled` and nothing else moves.
pub open spec fn cancel_accepted(pre: Campaign, caller: Identity, post: Campaign) -> bool {
    &&& cancel_allowed(pre, caller)
    &&& same_identity(pre, post)
    &&& post.raised_amount == pre.raised_amount
    &&& post.contributor_count == pre.contributor_count
    &&& post.status == CampaignStatus::Cancelled
}

impl Campaign {
    /// Open a new campaign: validate the request and return the initial
    /// record together with its creation event.
    ///
    /// `now` is the host clock, read once; `id` is a fresh identifier from a
    /// [`CampaignCounter`]. On success the campaign starts `Active` with
    /// nothing raised and `deadline == now + duration`, which lies strictly
    /// after `created_at`.
    pub fn create_campaign(
        id: u64,
        creator: Identity,
        title: String,
        description: String,
        goal_amount: u64,
        duration: i64,
        metadata_uri: String,
        now: i64,
    ) -> (r: Result<(Campaign, CampaignCreated), FundrrError>)
        ensures
            r is Ok <==> creation_allowed(
                goal_amount, duration, title@, description@, metadata_uri@, now),
            r matches Ok(p) ==> {
                &&& p.0.id == id
                &&& p.0.creator == creator
                &&& p.0.title == title
                &&& p.0.description == description
                &&& p.0.metadata_uri == metadata_uri
                &&& p.0.goal_amount == goal_amount
                &&& p.0.raised_amount == 0
                &&& p.0.created_at == now
                &&& p.0.deadline == now + duration
                &&& p.0.deadline > p.0.created_at
                &&& p.0.status == CampaignStatus::Active
                &&& p.0.contributor_count == 0
                &&& p.1.campaign_id == id
                &&& p.1.creator == creator
                &&& p.1.name == title
                &&& p.1.goal_amount == goal_amount
                &&& p.1.deadline == now + duration
                &&& p.1.timestamp == now
            },
            r matches Err(e) ==> e == creation_error(
                goal_amount, duration, title@, description@, metadata_uri@, now),
    {
        if goal_amount == 0 {
            return Err(FundrrError::InvalidGoalAmount);
        }
        if duration <= 0 {
            return Err(FundrrError::InvalidDuration);
        }
        if title.as_str().is_empty() || description.as_str().is_empty() {
            return Err(FundrrError::EmptyField);
        }
        if title.as_str().unicode_len() > MAX_TITLE_LEN
            || description.as_str().unicode_len() > MAX_DESCRIPTION_LEN
            || metadata_uri.as_str().unicode_len() > MAX_METADATA_URI_LEN {
            return Err(FundrrError::FieldTooLong);
        }
        if now > i64::MAX - duration {
            return Err(FundrrError::Overflow);
        }
        let deadline = now + duration;
        let event = CampaignCreated {
            campaign_id: id,
            creator,
            name: title.clone(),
            goal_amount,
            deadline,
            timestamp: now,
        };
        let campaign = Campaign {
            id,
            creator,
            title,
            description,
            metadata_uri,
            goal_amount,
            raised_amount: 0,
            created_at: now,
            deadline,
            status: CampaignStatus::Active,
            contributor_count: 0,
        };
        Ok((campaign, event))
    }

    /// Open a campaign record with an explicit deadline instead of a
    /// duration, without a metadata link and without a creation event.
    ///
    /// The request is held to the same demands as
    /// [`Campaign::create_campaign`]: a positive goal, a deadline strictly
    /// after `now`, both text fields present and within their capacity.
    pub fn initialize_campaign(
        id: u64,
        creator: Identity,
        title: String,
        description: String,
        goal_amount: u64,
        deadline: i64,
        now: i64,
    ) -> (r: Result<Campaign, FundrrError>)
        ensures
            r is Ok <==> initialization_allowed(goal_amount, deadline, title@, description@, now),
            r matches Ok(c) ==> {
                &&& c.id == id
                &&& c.creator == creator
                &&& c.title == title
                &&& c.description == description
                &&& c.metadata_uri@ == Seq::<char>::empty()
                &&& c.goal_amount == goal_amount
                &&& c.raised_amount == 0
                &&& c.created_at == now
                &&& c.deadline == deadline
                &&& c.deadline > c.created_at
                &&& c.status == CampaignStatus::Active
                &&& c.contributor_count == 0
            },
            r matches Err(e) ==> e == initialization_error(
                goal_amount, deadline, title@, description@, now),
    {
        if goal_amount == 0 {
            return Err(FundrrError::InvalidGoalAmount);
        }
        if deadline <= now {
            return Err(FundrrError::InvalidDuration);
        }
        if title.as_str().is_empty() || description.as_str().is_empty() {
            return Err(FundrrError::EmptyField);
        }
        if title.as_str().unicode_len() > MAX_TITLE_LEN
            || description.as_str().unicode_len() > MAX_DESCRIPTION_LEN {
            return Err(FundrrError::FieldTooLong);
        }
        Ok(Campaign {
            id,
            creator,
            title,
            description,
            metadata_uri: String::new(),
            goal_amount,
            raised_amount: 0,
            created_at: now,
            deadline,
            status: CampaignStatus::Active,
            contributor_count: 0,
        })
    }

    /// Accept a contribution of `amount` from `contributor` at time `now`.
    ///
    /// The caller moves the value into custody only when this returns `Ok`;
    /// on any error the campaign is unchanged. Reaching the goal flips the
    /// status to `Funded` in this same call, with `>=`: meeting the goal
    /// exactly funds the campaign.
    pub fn contribute(
        &mut self,
        contributor: Identity,
        amount: u64,
        now: i64,
    ) -> (r: Result<ContributionMade, FundrrError>)
        ensures
            r is Ok <==> contribution_allowed(*old(self), amount, now),
            r matches Ok(ev) ==> {
                &&& contribute_accepted(*old(self), amount, now, *final(self))
                &&& ev == (ContributionMade {
                    campaign_id: old(self).id,
                    contributor,
                    amount,
                    timestamp: now,
                })
            },
            r matches Err(e) ==> {
                &&& *final(self) == *old(self)
                &&& e == contribution_error(*old(self), amount, now)
            },
    {
        if amount == 0 {
            return Err(FundrrError::InvalidContributionAmount);
        }
        if !(self.status == CampaignStatus::Active) {
            return Err(FundrrError::CampaignNotActive);
        }
        if now > self.deadline {
            return Err(FundrrError::CampaignEnded);
        }
        let new_raised = match crate::arith::checked_add(self.raised_amount, amount) {
            Ok(v) => v,
            Err(e) => return Err(e),
        };
        let new_count = match crate::arith::checked_add(self.contributor_count, 1) {
            Ok(v) => v,
            Err(e) => return Err(e),
        };
        self.raised_amount = new_raised;
        self.contributor_count = new_count;
        if self.raised_amount >= self.goal_amount {
            self.status = CampaignStatus::Funded;
        }
        Ok(ContributionMade {
            campaign_id: self.id,
            contributor,
            amount,
            timestamp: now,
        })
    }

    /// Release what the custody holds above the rent-reserved minimum to the
    /// creator and close the campaign.
    ///
    /// `custody_balance` and `rent_minimum` come from the host ledger; the
    /// released amount is their saturating difference, not `raised_amount`,
    /// since custody may hold an allocation reserve beyond the logical
    /// ledger. `allow_partial` selects whether an expired, still active
    /// campaign may be drained below its goal. Withdrawal is one-shot: on
    /// success the status becomes `Completed`, where every further
    /// withdrawal fails with `InvalidState`.
    pub fn withdraw_funds(
        &mut self,
        caller: Identity,
        now: i64,
        custody_balance: u64,
        rent_minimum: u64,
        allow_partial: bool,
    ) -> (r: Result<FundsWithdrawn, FundrrError>)
        ensures
            r is Ok <==> withdraw_allowed(*old(self), caller, now, allow_partial)
                && available_above_reserve(custody_balance, rent_minimum) > 0,
            r matches Ok(ev) ==> {
                &&& withdraw_accepted(
                    *old(self), caller, now, custody_balance, rent_minimum, allow_partial,
                    *final(self))
                &&& ev == (FundsWithdrawn {
                    campaign_id: old(self).id,
                    recipient: caller,
                    amount: available_above_reserve(custody_balance, rent_minimum),
                    timestamp: now,
                })
            },
            r matches Err(e) ==> {
                &&& *final(self) == *old(self)
                &&& e == withdraw_error(
                    *old(self), caller, now, allow_partial, custody_balance, rent_minimum)
            },
    {
        if !(caller == self.creator) {
            return Err(FundrrError::Unauthorized);
        }
        let expired_active = self.status == CampaignStatus::Active
            && now > self.deadline && allow_partial;
        if !(self.status == CampaignStatus::Funded || expired_active) {
            return Err(FundrrError::InvalidState);
        }
        let available: u64 = if custody_balance >= rent_minimum {
            custody_balance - rent_minimum
        } else {
            0
        };
        if available == 0 {
            return Err(FundrrError::InsufficientFunds);
        }
        self.status = CampaignStatus::Completed;
        Ok(FundsWithdrawn {
            campaign_id: self.id,
            recipient: caller,
            amount: available,
            timestamp: now,
        })
    }

    /// Close an untouched campaign before its time.
    ///
    /// Only the creator may cancel, only while the campaign is `Active`, and
    /// only while nothing raised stands on the books: an accepted
    /// contribution forecloses cancellation for as long as it stands, so a
    /// partly funded campaign must run to expiry and use the refund path
    /// instead. Since only a refund after expiry lowers the raised amount,
    /// cancellation can return only for a failed campaign refunded in full.
    pub fn cancel_campaign(&mut self, caller: Identity, now: i64) -> (r: Result<
        CampaignCancelled,
        FundrrError,
    >)
        ensures
            r is Ok <==> cancel_allowed(*old(self), caller),
            r matches Ok(ev) ==> {
                &&& cancel_accepted(*old(self), caller, *final(self))
                &&& ev == (CampaignCancelled {
                    campaign_id: old(self).id,
                    creator: old(self).creator,
                    timestamp: now,
                })
            },
            r matches Err(e) ==> {
                &&& *final(self) == *old(self)
                &&& e == cancel_error(*old(self), caller)
            },
    {
        if !(caller == self.creator) {
            return Err(FundrrError::Unauthorized);
        }
        if !(self.status == CampaignStatus::Active) {
            return Err(FundrrError::InvalidState);
        }
        if !(self.raised_amount == 0) {
            return Err(FundrrError::CannotCancelFunded);
        }
        self.status = CampaignStatus::Cancelled;
        Ok(CampaignCancelled { campaign_id: self.id, creator: self.creator, timestamp: now })
    }

    /// Bytes of pre-allocated storage a persisted campaign record needs for
    /// the given title and description: a fixed discriminator, the creator
    /// identity, the two length-prefixed text fields, the two amounts, the
    /// deadline, and the status flag.
    pub fn space(title: &str, description: &str) -> (n: usize)
        requires
            title@.len() + description@.len() + 73 <= usize::MAX,
        ensures
            n == 73 + title@.len() + description@.len(),
    {
        8 + 32 + (4 + title.unicode_len()) + (4 + description.unicode_len()) + 8 + 8 + 8 + 1
    }
}

/// The process-wide monotonic source of campaign identifiers: each creation
/// draws the next value exactly once, and no identifier is reused, not even
/// after a cancellation.
#[derive(Clone, Copy, Debug, PartialEq, Eq, Structural)]
pub struct CampaignCounter {
    /// How many identifiers have been handed out; also the next one.
    pub count: u64,
}

impl CampaignCounter {
    /// A fresh counter that has handed out nothing.
    pub fn new() -> (c: CampaignCounter)
        ensures
            c.count == 0,
    {
        CampaignCounter { count: 0 }
    }

    /// Draw the next identifier and advance the counter.
    pub fn next_id(&mut self) -> (id: u64)
        requires
            old(self).count < u64::MAX,
        ensures
            id == old(self).count,
            final(self).count == old(self).count + 1,
    {
        let id = self.count;
        self.count = self.count + 1;
        id
    }
}

} // verus!
