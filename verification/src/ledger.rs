//! The contribution ledger: one record per accepted contribution, so that a
//! failed campaign can return to each contributor exactly what that
//! contributor put in, exactly once.

use vstd::prelude::*;
use vstd::pervasive::VecAdditionalExecFns;

use crate::campaign::{same_identity, Campaign, contribution_allowed, contribute_accepted, contribution_error};
use crate::errors::FundrrError;
use crate::events::ContributionMade;
use crate::identity::Identity;

verus! {

/// One accepted contribution: who made it, and how much of it is still
/// refundable.
#[derive(Clone, Copy, Debug, PartialEq, Eq, Structural)]
pub struct ContributionRecord {
    /// The contributor's identity.
    pub contributor: Identity,
    /// The part of the contribution not yet returned.
    pub amount: u64,
}

/// The per-campaign record of amounts owed back on refund, in order of
/// arrival.
#[derive(Clone, Debug, PartialEq, Eq)]
pub struct ContributionLedger {
    /// One entry per accepted contribution.
    pub entries: Vec<ContributionRecord>,
}

/// The total still refundable over all records.
pub open spec fn sum_amounts(s: Seq<ContributionRecord>) -> int
    decreases s.len(),
{
    if s.len() == 0 {
        0
    } else {
        sum_amounts(s.drop_last()) + s.last().amount
    }
}

/// The total still refundable to one contributor.
pub open spec fn refundable_of(s: Seq<ContributionRecord>, contributor: Identity) -> int
    decreases s.len(),
{
    if s.len() == 0 {
        0
    } else {
        refundable_of(s.drop_last(), contributor) + if s.last().contributor == contributor {
            s.last().amount as int
        } else {
            0
        }
    }
}

/// The reconciliation invariant between the logical ledger and the campaign
/// record: the ledger's refundable total is exactly the campaign's raised
/// amount. An empty ledger beside a fresh campaign establishes it, and
/// [`contribute_and_record`] and [`refund`] preserve it.
pub open spec fn ledger_matches(c: Campaign, l: ContributionLedger) -> bool {
    sum_amounts(l.entries@) == c.raised_amount
}

/// When a refund claim is open: the deadline has passed and the campaign
/// missed its goal.
pub open spec fn refund_allowed(c: Campaign, now: i64) -> bool {
    now > c.deadline && c.raised_amount < c.goal_amount
}

/// The transition an accepted refund makes on the campaign record: the
/// returned total comes out of the raised amount and nothing else moves, the
/// status included.
pub open spec fn refund_accepted(pre: Campaign, total: u64, now: i64, post: Campaign) -> bool {
    &&& refund_allowed(pre, now)
    &&& total <= pre.raised_amount
    &&& same_identity(pre, post)
    &&& post.raised_amount == pre.raised_amount - total
    &&& post.status == pre.status
    &&& post.contributor_count == pre.contributor_count
}

/// No record holds a negative amount, so one contributor's refundable total
/// never exceeds the total over all records.
pub proof fn lemma_refundable_le_sum(s: Seq<ContributionRecord>, contributor: Identity)
    ensures
        0 <= refundable_of(s, contributor) <= sum_amounts(s),
    decreases s.len(),
{
    if s.len() > 0 {
        lemma_refundable_le_sum(s.drop_last(), contributor);
    }
}

/// Extending a prefix by one record adds exactly that record's contribution
/// to both running totals.
proof fn lemma_prefix_step(s: Seq<ContributionRecord>, i: int, contributor: Identity)
    requires
        0 <= i < s.len(),
    ensures
        sum_amounts(s.subrange(0, i + 1)) == sum_amounts(s.subrange(0, i)) + s[i].amount,
        refundable_of(s.subrange(0, i + 1), contributor) == refundable_of(s.subrange(0, i), contributor)
            + if s[i].contributor == contributor { s[i].amount as int } else { 0 },
{
    let t = s.subrange(0, i + 1);
    assert(t.drop_last() =~= s.subrange(0, i));
    assert(t.last() == s[i]);
}

/// A prefix never sums to more than the whole.
proof fn lemma_sum_prefix_le(s: Seq<ContributionRecord>, i: int)
    requires
        0 <= i <= s.len(),
    ensures
        sum_amounts(s.subrange(0, i)) <= sum_amounts(s),
    decreases s.len() - i,
{
    if i == s.len() {
        assert(s.subrange(0, i) =~= s);
    } else {
        // Any identity serves here: only the sum clause of the step is used.
        lemma_prefix_step(s, i, Identity { w0: 0, w1: 0, w2: 0, w3: 0 });
        lemma_sum_prefix_le(s, i + 1);
    }
}

/// Zeroing exactly one contributor's records takes that contributor's
/// refundable total out of the sum and leaves every other contributor's
/// total untouched.
proof fn lemma_zero_out(s1: Seq<ContributionRecord>, s2: Seq<ContributionRecord>, contributor: Identity)
    requires
        s1.len() == s2.len(),
        forall|j: int| 0 <= j < s1.len() ==> s2[j].contributor == s1[j].contributor,
        forall|j: int| 0 <= j < s1.len() ==> s2[j].amount == (
            if s1[j].contributor == contributor { 0u64 } else { s1[j].amount }),
    ensures
        sum_amounts(s2) == sum_amounts(s1) - refundable_of(s1, contributor),
        refundable_of(s2, contributor) == 0,
        forall|other: Identity| other != contributor
            ==> refundable_of(s2, other) == refundable_of(s1, other),
    decreases s1.len(),
{
    if s1.len() > 0 {
        assert(s2.drop_last() =~= s2.subrange(0, s1.len() - 1));
        lemma_zero_out(s1.drop_last(), s2.drop_last(), contributor);
        assert forall|other: Identity| other != contributor implies refundable_of(s2, other)
            == refundable_of(s1, other) by {
            assert(refundable_of(s2.drop_last(), other) == refundable_of(s1.drop_last(), other));
        }
    }
}

impl ContributionLedger {
    /// A fresh ledger with no records and nothing refundable.
    pub fn new() -> (l: ContributionLedger)
        ensures
            l.entries@.len() == 0,
            sum_amounts(l.entries@) == 0,
            forall|who: Identity| refundable_of(l.entries@, who) == 0,
    {
        ContributionLedger { entries: Vec::new() }
    }

    /// Append the record of an accepted contribution.
    pub fn record_contribution(&mut self, contributor: Identity, amount: u64)
        ensures
            final(self).entries@ == old(self).entries@.push(
                ContributionRecord { contributor, amount }),
            sum_amounts(final(self).entries@) == sum_amounts(old(self).entries@) + amount,
            refundable_of(final(self).entries@, contributor) == refundable_of(
                old(self).entries@, contributor) + amount,
            forall|other: Identity| other != contributor ==> refundable_of(final(self).entries@, other)
                == refundable_of(old(self).entries@, other),
    {
        proof {
            let pushed = self.entries@.push(ContributionRecord { contributor, amount });
            assert(pushed.drop_last() =~= self.entries@);
        }
        self.entries.push(ContributionRecord { contributor, amount });
    }

    /// Zero every record of `contributor` and hand back their refundable
    /// total; the caller moves that much value out of custody. A second
    /// claim by the same contributor finds nothing and takes zero.
    pub fn take_refundable(&mut self, contributor: Identity) -> (total: u64)
        requires
            sum_amounts(old(self).entries@) <= u64::MAX,
        ensures
            total == refundable_of(old(self).entries@, contributor),
            sum_amounts(final(self).entries@) == sum_amounts(old(self).entries@) - total,
            refundable_of(final(self).entries@, contributor) == 0,
            forall|other: Identity| other != contributor ==> refundable_of(final(self).entries@, other)
                == refundable_of(old(self).entries@, other),
            final(self).entries@.len() == old(self).entries@.len(),
    {
        let ghost orig = self.entries@;
        let mut total: u64 = 0;
        let n = self.entries.len();
        let mut i: usize = 0;
        while i < n
            invariant
                i <= n,
                n == self.entries@.len(),
                orig.len() == n,
                sum_amounts(orig) <= u64::MAX,
                forall|j: int| i <= j < n ==> self.entries@[j] == orig[j],
                forall|j: int| 0 <= j < i ==> self.entries@[j].contributor == orig[j].contributor,
                forall|j: int| 0 <= j < i ==> self.entries@[j].amount == (
                    if orig[j].contributor == contributor { 0u64 } else { orig[j].amount }),
                total == refundable_of(orig.subrange(0, i as int), contributor),
            decreases n - i,
        {
            proof {
                lemma_prefix_step(orig, i as int, contributor);
                lemma_refundable_le_sum(orig.subrange(0, i + 1), contributor);
                lemma_sum_prefix_le(orig, i + 1);
            }
            let rec = self.entries[i];
            if rec.contributor == contributor {
                total = total + rec.amount;
                self.entries.set(i, ContributionRecord { contributor, amount: 0 });
            }
            i = i + 1;
        }
        proof {
            assert(orig.subrange(0, n as int) =~= orig);
            lemma_zero_out(orig, self.entries@, contributor);
        }
        total
    }
}

/// Accept a contribution and record it for refund, atomically: either the
/// campaign totals and the ledger both move, or neither does. Preserves the
/// reconciliation invariant [`ledger_matches`].
pub fn contribute_and_record(
    campaign: &mut Campaign,
    ledger: &mut ContributionLedger,
    contributor: Identity,
    amount: u64,
    now: i64,
) -> (r: Result<ContributionMade, FundrrError>)
    requires
        ledger_matches(*old(campaign), *old(ledger)),
    ensures
        ledger_matches(*final(campaign), *final(ledger)),
        r is Ok <==> contribution_allowed(*old(campaign), amount, now),
        r matches Ok(ev) ==> {
            &&& contribute_accepted(*old(campaign), amount, now, *final(campaign))
            &&& ev == (ContributionMade {
                campaign_id: old(campaign).id,
                contributor,
                amount,
                timestamp: now,
            })
            &&& refundable_of(final(ledger).entries@, contributor) == refundable_of(
                old(ledger).entries@, contributor) + amount
            &&& forall|other: Identity| other != contributor
                ==> refundable_of(final(ledger).entries@, other)
                    == refundable_of(old(ledger).entries@, other)
        },
        r matches Err(e) ==> {
            &&& *final(campaign) == *old(campaign)
            &&& *final(ledger) == *old(ledger)
            &&& e == contribution_error(*old(campaign), amount, now)
        },
{
    match campaign.contribute(contributor, amount, now) {
        Ok(ev) => {
            ledger.record_contribution(contributor, amount);
            Ok(ev)
        },
        Err(e) => Err(e),
    }
}

/// Return to `contributor` everything the ledger still owes them, exactly
/// once: their records are zeroed and the campaign's raised amount drops by
/// the returned total, while the status stays as it was. The caller moves
/// the returned amount out of custody only on `Ok`. Open only after the
/// deadline of a campaign that missed its goal; a repeat claim is a no-op
/// returning zero. Preserves the reconciliation invariant
/// [`ledger_matches`].
pub fn refund(
    campaign: &mut Campaign,
    ledger: &mut ContributionLedger,
    contributor: Identity,
    now: i64,
) -> (r: Result<u64, FundrrError>)
    requires
        ledger_matches(*old(campaign), *old(ledger)),
    ensures
        ledger_matches(*final(campaign), *final(ledger)),
        r is Ok <==> refund_allowed(*old(campaign), now),
        r matches Ok(total) ==> {
            &&& total == refundable_of(old(ledger).entries@, contributor)
            &&& refund_accepted(*old(campaign), total, now, *final(campaign))
            &&& refundable_of(final(ledger).entries@, contributor) == 0
            &&& forall|other: Identity| other != contributor
                ==> refundable_of(final(ledger).entries@, other)
                    == refundable_of(old(ledger).entries@, other)
        },
        r matches Err(e) ==> {
            &&& *final(campaign) == *old(campaign)
            &&& *final(ledger) == *old(ledger)
            &&& e == FundrrError::RefundNotAllowed
        },
{
    if !(now > campaign.deadline && campaign.raised_amount < campaign.goal_amount) {
        return Err(FundrrError::RefundNotAllowed);
    }
    proof {
        lemma_refundable_le_sum(ledger.entries@, contributor);
    }
    let total = ledger.take_refundable(contributor);
    campaign.raised_amount = campaign.raised_amount - total;
    Ok(total)
}

} // verus!
