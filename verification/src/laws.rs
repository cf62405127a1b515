//! The engine's general guarantees, proved once and for all over the
//! transition relations that the operations' contracts establish.

use vstd::prelude::*;

use crate::campaign::{
    cancel_accepted, cancel_allowed, contribute_accepted, same_identity, withdraw_accepted,
    withdraw_allowed, withdraw_error, Campaign,
};
use crate::errors::FundrrError;
use crate::identity::Identity;
use crate::ledger::refund_accepted;
use crate::status::status_progresses;

verus! {

/// The exact total of a sequence of contribution amounts.
pub open spec fn sum_contributions(amounts: Seq<u64>) -> int
    decreases amounts.len(),
{
    if amounts.len() == 0 {
        0
    } else {
        sum_contributions(amounts.drop_last()) + amounts.last()
    }
}

/// Law: over any run of accepted contributions on one campaign, the raised
/// amount grows by exactly the sum of the amounts: no drift, no double
/// count. Started from a fresh campaign with nothing raised, it ends as
/// exactly that sum.
pub proof fn lemma_contributions_sum_exactly(
    states: Seq<Campaign>,
    amounts: Seq<u64>,
    times: Seq<i64>,
)
    requires
        states.len() == amounts.len() + 1,
        times.len() == amounts.len(),
        forall|i: int| 0 <= i < amounts.len()
            ==> contribute_accepted(states[i], amounts[i], times[i], states[i + 1]),
    ensures
        states.last().raised_amount == states[0].raised_amount + sum_contributions(amounts),
        same_identity(states[0], states.last()),
        states[0].raised_amount == 0
            ==> states.last().raised_amount == sum_contributions(amounts),
    decreases amounts.len(),
{
    if amounts.len() == 0 {
        assert(states.last() == states[0]);
    } else {
        let n = amounts.len() as int;
        let prefix = states.subrange(0, n);
        assert forall|i: int| 0 <= i < n - 1 implies contribute_accepted(
            prefix[i], amounts.drop_last()[i], times.drop_last()[i], prefix[i + 1]) by {
            assert(prefix[i] == states[i]);
            assert(prefix[i + 1] == states[i + 1]);
        }
        lemma_contributions_sum_exactly(prefix, amounts.drop_last(), times.drop_last());
        assert(prefix.last() == states[n - 1]);
        assert(contribute_accepted(states[n - 1], amounts[n - 1], times[n - 1], states[n]));
    }
}

/// One movement of the logical ledger: a contribution into the raise, or a
/// refund out of it, by the given amount at some time.
pub open spec fn fund_step(pre: Campaign, into_raise: bool, amount: u64, post: Campaign) -> bool {
    if into_raise {
        exists|now: i64| contribute_accepted(pre, amount, now, post)
    } else {
        exists|now: i64| refund_accepted(pre, amount, now, post)
    }
}

/// The net movement of a run of ledger steps: contributions count in,
/// refunds count out.
pub open spec fn net_of(steps: Seq<(bool, u64)>) -> int
    decreases steps.len(),
{
    if steps.len() == 0 {
        0
    } else {
        net_of(steps.drop_last()) + if steps.last().0 {
            steps.last().1 as int
        } else {
            -(steps.last().1 as int)
        }
    }
}

/// Law: funds are conserved. Over any run of accepted contributions and
/// refunds on one campaign, the raised amount is exactly the starting
/// amount plus the contributions minus the refunds: value neither appears
/// nor silently disappears from the logical ledger.
pub proof fn lemma_fund_conservation(states: Seq<Campaign>, steps: Seq<(bool, u64)>)
    requires
        states.len() == steps.len() + 1,
        forall|i: int| 0 <= i < steps.len()
            ==> #[trigger] fund_step(states[i], steps[i].0, steps[i].1, states[i + 1]),
    ensures
        states.last().raised_amount == states[0].raised_amount + net_of(steps),
        same_identity(states[0], states.last()),
    decreases steps.len(),
{
    if steps.len() == 0 {
        assert(states.last() == states[0]);
    } else {
        let n = steps.len() as int;
        let prefix = states.subrange(0, n);
        assert forall|i: int| 0 <= i < n - 1 implies #[trigger] fund_step(
            prefix[i], steps.drop_last()[i].0, steps.drop_last()[i].1, prefix[i + 1]) by {
            assert(fund_step(states[i], steps[i].0, steps[i].1, states[i + 1]));
        }
        lemma_fund_conservation(prefix, steps.drop_last());
        assert(prefix.last() == states[n - 1]);
        assert(fund_step(states[n - 1], steps[n - 1].0, steps[n - 1].1, states[n]));
        let pre = states[n - 1];
        let post = states[n];
        let amount = steps[n - 1].1;
        if steps[n - 1].0 {
            let now = choose|now: i64| #[trigger] contribute_accepted(pre, amount, now, post);
            assert(contribute_accepted(pre, amount, now, post));
        } else {
            let now = choose|now: i64| #[trigger] refund_accepted(pre, amount, now, post);
            assert(refund_accepted(pre, amount, now, post));
        }
    }
}

/// Law: withdrawal is one-shot. After an accepted withdrawal the campaign is
/// `Completed`, where no withdrawal is allowed for anyone at any time under
/// either expiry policy, and the creator's own retry reports exactly
/// `InvalidState`: funds are never re-released.
pub proof fn lemma_withdraw_is_one_shot(
    pre: Campaign,
    caller: Identity,
    now: i64,
    custody_balance: u64,
    rent_minimum: u64,
    allow_partial: bool,
    post: Campaign,
)
    requires
        withdraw_accepted(pre, caller, now, custody_balance, rent_minimum, allow_partial, post),
    ensures
        forall|caller2: Identity, now2: i64, allow2: bool|
            !withdraw_allowed(post, caller2, now2, allow2),
        forall|caller2: Identity, now2: i64, allow2: bool, custody2: u64, rent2: u64|
            caller2 == post.creator ==> withdraw_error(post, caller2, now2, allow2, custody2, rent2)
                == FundrrError::InvalidState,
{
}

/// Law: one accepted contribution forecloses cancellation: right after it,
/// the raised amount is positive and nobody may cancel.
pub proof fn lemma_contribution_forecloses_cancel(
    pre: Campaign,
    amount: u64,
    now: i64,
    post: Campaign,
)
    requires
        contribute_accepted(pre, amount, now, post),
    ensures
        post.raised_amount > 0,
        forall|caller: Identity| !cancel_allowed(post, caller),
{
}

/// Any one step of the state machine apart from a refund: an accepted
/// contribution, withdrawal, or cancellation, for some choice of its inputs.
pub open spec fn step_without_refund(pre: Campaign, post: Campaign) -> bool {
    ||| exists|amount: u64, now: i64| contribute_accepted(pre, amount, now, post)
    ||| exists|caller: Identity, now: i64, custody_balance: u64, rent_minimum: u64, allow_partial: bool|
        withdraw_accepted(pre, caller, now, custody_balance, rent_minimum, allow_partial, post)
    ||| exists|caller: Identity| cancel_accepted(pre, caller, post)
}

/// Law: every step of the state machine apart from a refund keeps the
/// campaign's identity, never lowers the raised amount, and moves the status
/// only forward: no backward transition ever happens, and a terminal status
/// never changes again.
pub proof fn lemma_step_preserves_machine(pre: Campaign, post: Campaign)
    requires
        step_without_refund(pre, post),
    ensures
        same_identity(pre, post),
        post.raised_amount >= pre.raised_amount,
        status_progresses(pre.status, post.status),
        pre.status.is_terminal() ==> post.status == pre.status,
{
    if exists|amount: u64, now: i64| contribute_accepted(pre, amount, now, post) {
        let (amount, now) = choose|amount: u64, now: i64|
            contribute_accepted(pre, amount, now, post);
        assert(contribute_accepted(pre, amount, now, post));
    } else if exists|caller: Identity, now: i64, custody_balance: u64, rent_minimum: u64,
        allow_partial: bool| withdraw_accepted(
        pre, caller, now, custody_balance, rent_minimum, allow_partial, post) {
        let (caller, now, custody_balance, rent_minimum, allow_partial) = choose|
            caller: Identity,
            now: i64,
            custody_balance: u64,
            rent_minimum: u64,
            allow_partial: bool,
        | withdraw_accepted(pre, caller, now, custody_balance, rent_minimum, allow_partial, post);
        assert(withdraw_accepted(
            pre, caller, now, custody_balance, rent_minimum, allow_partial, post));
    } else {
        let caller = choose|caller: Identity| cancel_accepted(pre, caller, post);
        assert(cancel_accepted(pre, caller, post));
    }
}

/// Law: a contribution forecloses cancellation permanently. Once the raised
/// amount is positive, no run of further contributions, withdrawals, or
/// cancellations brings it back to zero, so cancellation stays impossible.
/// A refund after expiry is the one operation that lowers the raised amount,
/// which is why a partly funded campaign must take the refund path.
pub proof fn lemma_cancel_foreclosed_forever(states: Seq<Campaign>)
    requires
        states.len() >= 1,
        states[0].raised_amount > 0,
        forall|i: int| 0 <= i < states.len() - 1
            ==> #[trigger] step_without_refund(states[i], states[i + 1]),
    ensures
        states.last().raised_amount > 0,
        forall|caller: Identity| !cancel_allowed(states.last(), caller),
    decreases states.len(),
{
    if states.len() > 1 {
        let n = states.len() as int;
        lemma_cancel_foreclosed_forever(states.drop_last());
        assert(states.drop_last().last() == states[n - 2]);
        assert(step_without_refund(states[n - 2], states[n - 2 + 1]));
        lemma_step_preserves_machine(states[n - 2], states[n - 1]);
        assert(states.last() == states[n - 1]);
    }
}

} // verus!
