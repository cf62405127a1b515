use fundrr::arith::checked_add;
use fundrr::campaign::Campaign;
use fundrr::errors::{ErrorKind, FundrrError};
use fundrr::status::CampaignStatus;
use fundrr::CampaignCounter;
use fundrr::Identity;

fn actor(n: u64) -> Identity {
    Identity { w0: n, w1: 0, w2: 0, w3: 0 }
}

fn mk(goal: u64, duration: i64, now: i64) -> Campaign {
    let (c, _ev) = Campaign::create_campaign(
        1,
        actor(7),
        "Save the reef".to_string(),
        "Restore a coral reef".to_string(),
        goal,
        duration,
        "ipfs://reef".to_string(),
        now,
    )
    .expect("valid creation");
    c
}

#[test]
fn create_starts_active_with_nothing_raised() {
    let (c, ev) = Campaign::create_campaign(
        42,
        actor(7),
        "Title".to_string(),
        "Description".to_string(),
        1000,
        3600,
        "uri".to_string(),
        100,
    )
    .unwrap();
    assert_eq!(c.status, CampaignStatus::Active);
    assert_eq!(c.raised_amount, 0);
    assert_eq!(c.created_at, 100);
    assert_eq!(c.deadline, 3700);
    assert!(c.deadline > c.created_at);
    assert_eq!(c.contributor_count, 0);
    assert_eq!(c.id, 42);
    assert_eq!(c.creator, actor(7));
    assert_eq!(ev.campaign_id, 42);
    assert_eq!(ev.creator, actor(7));
    assert_eq!(ev.name, "Title".to_string());
    assert_eq!(ev.goal_amount, 1000);
    assert_eq!(ev.deadline, 3700);
    assert_eq!(ev.timestamp, 100);
}

#[test]
fn create_rejects_zero_goal() {
    let r = Campaign::create_campaign(
        1,
        actor(7),
        "t".to_string(),
        "d".to_string(),
        0,
        3600,
        "u".to_string(),
        100,
    );
    assert_eq!(r.unwrap_err(), FundrrError::InvalidGoalAmount);
}

#[test]
fn create_rejects_nonpositive_duration() {
    let r = Campaign::create_campaign(
        1,
        actor(7),
        "t".to_string(),
        "d".to_string(),
        1000,
        0,
        "u".to_string(),
        100,
    );
    assert_eq!(r.unwrap_err(), FundrrError::InvalidDuration);
    let r = Campaign::create_campaign(
        1,
        actor(7),
        "t".to_string(),
        "d".to_string(),
        1000,
        -5,
        "u".to_string(),
        100,
    );
    assert_eq!(r.unwrap_err(), FundrrError::InvalidDuration);
}

#[test]
fn create_rejects_empty_required_fields() {
    let r = Campaign::create_campaign(
        1,
        actor(7),
        "".to_string(),
        "d".to_string(),
        1000,
        3600,
        "u".to_string(),
        100,
    );
    assert_eq!(r.unwrap_err(), FundrrError::EmptyField);
    let r = Campaign::create_campaign(
        1,
        actor(7),
        "t".to_string(),
        "".to_string(),
        1000,
        3600,
        "u".to_string(),
        100,
    );
    assert_eq!(r.unwrap_err(), FundrrError::EmptyField);
}

#[test]
fn create_rejects_oversized_fields() {
    let r = Campaign::create_campaign(
        1,
        actor(7),
        "x".repeat(51),
        "d".to_string(),
        1000,
        3600,
        "u".to_string(),
        100,
    );
    assert_eq!(r.unwrap_err(), FundrrError::FieldTooLong);
    let r = Campaign::create_campaign(
        1,
        actor(7),
        "t".to_string(),
        "x".repeat(501),
        1000,
        3600,
        "u".to_string(),
        100,
    );
    assert_eq!(r.unwrap_err(), FundrrError::FieldTooLong);
    let r = Campaign::create_campaign(
        1,
        actor(7),
        "t".to_string(),
        "d".to_string(),
        1000,
        3600,
        "x".repeat(201),
        100,
    );
    assert_eq!(r.unwrap_err(), FundrrError::FieldTooLong);
    // The capacities themselves are fine.
    let r = Campaign::create_campaign(
        1,
        actor(7),
        "x".repeat(50),
        "x".repeat(500),
        1000,
        3600,
        "x".repeat(200),
        100,
    );
    assert!(r.is_ok());
}

#[test]
fn create_rejects_deadline_past_timestamp_range() {
    let r = Campaign::create_campaign(
        1,
        actor(7),
        "t".to_string(),
        "d".to_string(),
        1000,
        2,
        "u".to_string(),
        i64::MAX - 1,
    );
    assert_eq!(r.unwrap_err(), FundrrError::Overflow);
}

#[test]
fn contributions_sum_exactly() {
    let mut c = mk(10_000, 3600, 0);
    let amounts = [400u64, 1, 99, 2500, 7];
    let mut expected = 0u64;
    for (i, a) in amounts.iter().enumerate() {
        let ev = c.contribute(actor(100 + i as u64), *a, 10).unwrap();
        expected += *a;
        assert_eq!(c.raised_amount, expected);
        assert_eq!(c.contributor_count, (i + 1) as u64);
        assert_eq!(ev.amount, *a);
        assert_eq!(ev.contributor, actor(100 + i as u64));
    }
    assert_eq!(c.raised_amount, 3007);
}

#[test]
fn crossing_goal_exactly_funds_in_the_same_call() {
    let mut c = mk(1000, 3600, 0);
    c.contribute(actor(11), 400, 10).unwrap();
    assert_eq!(c.status, CampaignStatus::Active);
    // Exactly goal_amount - raised_amount: the flip happens in this call.
    c.contribute(actor(12), 600, 20).unwrap();
    assert_eq!(c.raised_amount, 1000);
    assert_eq!(c.status, CampaignStatus::Funded);
}

#[test]
fn contribution_beyond_goal_also_funds() {
    let mut c = mk(1000, 3600, 0);
    c.contribute(actor(11), 1500, 10).unwrap();
    assert_eq!(c.status, CampaignStatus::Funded);
    assert_eq!(c.raised_amount, 1500);
}

#[test]
fn zero_contribution_rejected() {
    let mut c = mk(1000, 3600, 0);
    let r = c.contribute(actor(11), 0, 10);
    assert_eq!(r.unwrap_err(), FundrrError::InvalidContributionAmount);
    assert_eq!(c.raised_amount, 0);
}

#[test]
fn late_contribution_fails_campaign_ended_even_while_active() {
    let mut c = mk(1000, 10, 0);
    assert_eq!(c.status, CampaignStatus::Active);
    let r = c.contribute(actor(11), 100, 11);
    assert_eq!(r.unwrap_err(), FundrrError::CampaignEnded);
    assert_eq!(c.status, CampaignStatus::Active);
    assert_eq!(c.raised_amount, 0);
    // The deadline itself is still in time.
    assert!(c.contribute(actor(11), 100, 10).is_ok());
}

#[test]
fn contribution_to_funded_campaign_rejected() {
    let mut c = mk(1000, 3600, 0);
    c.contribute(actor(11), 1000, 10).unwrap();
    let r = c.contribute(actor(12), 1, 20);
    assert_eq!(r.unwrap_err(), FundrrError::CampaignNotActive);
}

#[test]
fn overflowing_contribution_fails_and_changes_nothing() {
    let mut c = mk(u64::MAX, 3600, 0);
    c.contribute(actor(11), u64::MAX - 5, 10).unwrap();
    assert_eq!(c.raised_amount, u64::MAX - 5);
    let r = c.contribute(actor(12), 6, 20);
    assert_eq!(r.unwrap_err(), FundrrError::Overflow);
    assert_eq!(c.raised_amount, u64::MAX - 5);
    assert_eq!(c.contributor_count, 1);
    assert_eq!(c.status, CampaignStatus::Active);
}

#[test]
fn full_success_scenario() {
    let mut c = mk(1000, 3600, 0);
    c.contribute(actor(11), 400, 100).unwrap();
    assert_eq!(c.raised_amount, 400);
    assert_eq!(c.status, CampaignStatus::Active);
    c.contribute(actor(12), 600, 200).unwrap();
    assert_eq!(c.raised_amount, 1000);
    assert_eq!(c.status, CampaignStatus::Funded);
    // Custody holds the raise plus the rent reserve it was created with.
    let custody = 1000 + 890;
    let ev = c.withdraw_funds(actor(7), 300, custody, 890, false).unwrap();
    assert_eq!(ev.amount, custody - 890);
    assert_eq!(ev.recipient, actor(7));
    assert_eq!(c.status, CampaignStatus::Completed);
}

#[test]
fn expired_partial_raise_is_withdrawable_under_the_partial_policy() {
    let mut c = mk(1000, 10, 0);
    c.contribute(actor(11), 300, 5).unwrap();
    assert_eq!(c.status, CampaignStatus::Active);
    let ev = c.withdraw_funds(actor(7), 11, 300 + 890, 890, true).unwrap();
    assert_eq!(ev.amount, 300);
    assert_eq!(c.status, CampaignStatus::Completed);
}

#[test]
fn expired_partial_raise_is_blocked_without_the_partial_policy() {
    let mut c = mk(1000, 10, 0);
    c.contribute(actor(11), 300, 5).unwrap();
    let r = c.withdraw_funds(actor(7), 11, 300 + 890, 890, false);
    assert_eq!(r.unwrap_err(), FundrrError::InvalidState);
    assert_eq!(c.status, CampaignStatus::Active);
}

#[test]
fn second_withdraw_always_fails_invalid_state() {
    let mut c = mk(1000, 3600, 0);
    c.contribute(actor(11), 1000, 10).unwrap();
    c.withdraw_funds(actor(7), 20, 1890, 890, false).unwrap();
    assert_eq!(c.status, CampaignStatus::Completed);
    let r = c.withdraw_funds(actor(7), 30, 1890, 890, false);
    assert_eq!(r.unwrap_err(), FundrrError::InvalidState);
    let r = c.withdraw_funds(actor(7), 9999, 1890, 890, true);
    assert_eq!(r.unwrap_err(), FundrrError::InvalidState);
    assert_eq!(c.status, CampaignStatus::Completed);
}

#[test]
fn withdraw_requires_the_creator() {
    let mut c = mk(1000, 3600, 0);
    c.contribute(actor(11), 1000, 10).unwrap();
    let r = c.withdraw_funds(actor(8), 20, 1890, 890, false);
    assert_eq!(r.unwrap_err(), FundrrError::Unauthorized);
    assert_eq!(c.status, CampaignStatus::Funded);
}

#[test]
fn withdraw_before_deadline_of_unfunded_campaign_is_invalid() {
    let mut c = mk(1000, 3600, 0);
    c.contribute(actor(11), 300, 10).unwrap();
    let r = c.withdraw_funds(actor(7), 20, 1190, 890, true);
    assert_eq!(r.unwrap_err(), FundrrError::InvalidState);
}

#[test]
fn withdraw_with_nothing_above_the_reserve_fails() {
    let mut c = mk(1000, 3600, 0);
    c.contribute(actor(11), 1000, 10).unwrap();
    let r = c.withdraw_funds(actor(7), 20, 890, 890, false);
    assert_eq!(r.unwrap_err(), FundrrError::InsufficientFunds);
    // A custody below the reserve saturates to zero rather than underflowing.
    let r = c.withdraw_funds(actor(7), 20, 100, 890, false);
    assert_eq!(r.unwrap_err(), FundrrError::InsufficientFunds);
    assert_eq!(c.status, CampaignStatus::Funded);
}

#[test]
fn cancel_succeeds_only_untouched() {
    let mut c = mk(1000, 3600, 0);
    let ev = c.cancel_campaign(actor(7), 50).unwrap();
    assert_eq!(c.status, CampaignStatus::Cancelled);
    assert_eq!(ev.campaign_id, 1);
    assert_eq!(ev.timestamp, 50);
}

#[test]
fn any_contribution_forecloses_cancellation() {
    let mut c = mk(1000, 3600, 0);
    c.contribute(actor(11), 1, 10).unwrap();
    let r = c.cancel_campaign(actor(7), 50);
    assert_eq!(r.unwrap_err(), FundrrError::CannotCancelFunded);
    assert_eq!(c.status, CampaignStatus::Active);
}

#[test]
fn cancel_requires_the_creator() {
    let mut c = mk(1000, 3600, 0);
    let r = c.cancel_campaign(actor(8), 50);
    assert_eq!(r.unwrap_err(), FundrrError::Unauthorized);
    assert_eq!(c.status, CampaignStatus::Active);
}

#[test]
fn cancelled_campaign_accepts_nothing_further() {
    let mut c = mk(1000, 3600, 0);
    c.cancel_campaign(actor(7), 50).unwrap();
    let r = c.contribute(actor(11), 100, 60);
    assert_eq!(r.unwrap_err(), FundrrError::CampaignNotActive);
    let r = c.withdraw_funds(actor(7), 60, 890, 890, true);
    assert_eq!(r.unwrap_err(), FundrrError::InvalidState);
    let r = c.cancel_campaign(actor(7), 70);
    assert_eq!(r.unwrap_err(), FundrrError::InvalidState);
}

#[test]
fn initialize_campaign_stores_the_given_deadline() {
    let c = Campaign::initialize_campaign(
        3,
        actor(9),
        "t".to_string(),
        "d".to_string(),
        500,
        1234,
        1000,
    )
    .unwrap();
    assert_eq!(c.id, 3);
    assert_eq!(c.creator, actor(9));
    assert_eq!(c.goal_amount, 500);
    assert_eq!(c.raised_amount, 0);
    assert_eq!(c.deadline, 1234);
    assert_eq!(c.created_at, 1000);
    assert_eq!(c.status, CampaignStatus::Active);
    assert_eq!(c.contributor_count, 0);
    assert_eq!(c.metadata_uri, "");
}

#[test]
fn initialize_campaign_validates_like_creation() {
    let r = Campaign::initialize_campaign(
        3,
        actor(9),
        "t".to_string(),
        "d".to_string(),
        0,
        1234,
        1000,
    );
    assert_eq!(r.unwrap_err(), FundrrError::InvalidGoalAmount);
    let r = Campaign::initialize_campaign(
        3,
        actor(9),
        "t".to_string(),
        "d".to_string(),
        500,
        1000,
        1000,
    );
    assert_eq!(r.unwrap_err(), FundrrError::InvalidDuration);
    let r = Campaign::initialize_campaign(
        3,
        actor(9),
        "".to_string(),
        "d".to_string(),
        500,
        1234,
        1000,
    );
    assert_eq!(r.unwrap_err(), FundrrError::EmptyField);
    let r = Campaign::initialize_campaign(
        3,
        actor(9),
        "x".repeat(51),
        "d".to_string(),
        500,
        1234,
        1000,
    );
    assert_eq!(r.unwrap_err(), FundrrError::FieldTooLong);
}

#[test]
fn space_counts_the_fixed_layout_plus_both_texts() {
    assert_eq!(Campaign::space("abc", "defgh"), 73 + 3 + 5);
    assert_eq!(Campaign::space("", ""), 73);
}

#[test]
fn counter_hands_each_identifier_out_once() {
    let mut counter = CampaignCounter::new();
    assert_eq!(counter.next_id(), 0);
    assert_eq!(counter.next_id(), 1);
    assert_eq!(counter.next_id(), 2);
    assert_eq!(counter.count, 3);
}

#[test]
fn checked_add_fails_only_past_the_range() {
    assert_eq!(checked_add(2, 3).unwrap(), 5);
    assert_eq!(checked_add(u64::MAX - 1, 1).unwrap(), u64::MAX);
    assert_eq!(checked_add(u64::MAX, 1).unwrap_err(), FundrrError::Overflow);
    assert_eq!(checked_add(u64::MAX - 1, 2).unwrap_err(), FundrrError::Overflow);
}

#[test]
fn error_kinds_classify_the_errors() {
    assert_eq!(FundrrError::EmptyField.kind(), ErrorKind::Validation);
    assert_eq!(FundrrError::InvalidGoalAmount.kind(), ErrorKind::Validation);
    assert_eq!(FundrrError::CampaignEnded.kind(), ErrorKind::StateConflict);
    assert_eq!(FundrrError::InvalidState.kind(), ErrorKind::StateConflict);
    assert_eq!(FundrrError::Unauthorized.kind(), ErrorKind::Authorization);
    assert_eq!(FundrrError::Overflow.kind(), ErrorKind::Arithmetic);
    assert_eq!(FundrrError::InsufficientFunds.kind(), ErrorKind::CustodyFailure);
    assert!(!FundrrError::RefundNotAllowed.message().is_empty());
}
