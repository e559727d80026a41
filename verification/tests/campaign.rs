use donacions::{CrowdfundingSc, Identity, LedgerError, Status};

fn party(tag: u8) -> Identity {
    Identity::new([tag; 32])
}

fn campaign(target: u128, min: u128, per_user: u128, cap: u128) -> CrowdfundingSc {
    CrowdfundingSc::init(party(1), target, 100, min, per_user, cap, 10).unwrap()
}

fn recorded(c: &CrowdfundingSc, who: &Identity) -> u128 {
    c.deposit(&who.to_bytes()).unwrap()
}

#[test]
fn init_keeps_the_parameters() {
    let c = CrowdfundingSc::init(party(1), 1000, 100, 10, 400, 2000, 10).unwrap();
    assert_eq!(c.target(), 1000);
    assert_eq!(c.deadline(), 100);
    assert_eq!(c.min_contribution(), 10);
    assert_eq!(c.max_per_user(), 400);
    assert_eq!(c.max_cap(), 2000);
    assert_eq!(c.owner(), party(1));
    assert_eq!(c.get_current_funds(), 0);
    assert_eq!(recorded(&c, &party(2)), 0);
}

#[test]
fn new_campaign_is_collecting_just_before_its_deadline() {
    let c = CrowdfundingSc::init(party(1), 1, 11, 0, 0, 1, 10).unwrap();
    assert_eq!(c.status(10), Status::FundingPeriod);
    let c = campaign(1000, 10, 1000, 1000);
    assert_eq!(c.status(99), Status::FundingPeriod);
}

#[test]
fn init_rejects_a_zero_target() {
    let r = CrowdfundingSc::init(party(1), 0, 100, 10, 1000, 1000, 10);
    assert_eq!(r.unwrap_err(), LedgerError::InvalidParameters);
}

#[test]
fn init_rejects_a_cap_below_the_target() {
    let r = CrowdfundingSc::init(party(1), 1000, 100, 10, 1000, 999, 10);
    assert_eq!(r.unwrap_err(), LedgerError::InvalidParameters);
}

#[test]
fn init_rejects_a_user_cap_below_the_minimum() {
    let r = CrowdfundingSc::init(party(1), 1000, 100, 10, 9, 1000, 10);
    assert_eq!(r.unwrap_err(), LedgerError::InvalidParameters);
}

#[test]
fn init_rejects_a_deadline_that_is_not_ahead() {
    let r = CrowdfundingSc::init(party(1), 1000, 10, 10, 1000, 1000, 10);
    assert_eq!(r.unwrap_err(), LedgerError::InvalidParameters);
    let r = CrowdfundingSc::init(party(1), 1000, 9, 10, 1000, 1000, 10);
    assert_eq!(r.unwrap_err(), LedgerError::InvalidParameters);
    assert!(CrowdfundingSc::init(party(1), 1000, 11, 10, 1000, 1000, 10).is_ok());
}

#[test]
fn init_accepts_the_tightest_parameters() {
    let c = CrowdfundingSc::init(party(1), 1, 1, 5, 5, 1, 0).unwrap();
    assert_eq!(c.status(0), Status::FundingPeriod);
    assert_eq!(c.status(1), Status::FundingPeriod);
    assert_eq!(c.status(2), Status::Failed);
}

#[test]
fn full_target_then_owner_is_paid() {
    let owner = party(1);
    let donor = party(2);
    let mut c = campaign(1000, 10, 1000, 1000);
    assert_eq!(c.fund(&donor, 1000, 50), Ok(()));
    assert_eq!(c.get_current_funds(), 1000);
    assert_eq!(recorded(&c, &donor), 1000);
    assert_eq!(c.status(100), Status::FundingPeriod);
    assert_eq!(c.status(101), Status::Successful);
    assert_eq!(c.claim(&owner, 101), Ok(1000));
    assert_eq!(c.get_current_funds(), 0);
    assert_eq!(recorded(&c, &donor), 1000);
}

#[test]
fn only_the_owner_claims_a_successful_campaign() {
    let owner = party(1);
    let donor = party(2);
    let mut c = campaign(1000, 10, 1000, 1000);
    assert_eq!(c.fund(&donor, 1000, 50), Ok(()));
    assert_eq!(c.claim(&donor, 101), Err(LedgerError::Unauthorized));
    assert_eq!(c.claim(&party(7), 101), Err(LedgerError::Unauthorized));
    assert_eq!(c.get_current_funds(), 1000);
    assert_eq!(recorded(&c, &donor), 1000);
    assert_eq!(c.status(101), Status::Successful);
    assert_eq!(c.claim(&owner, 102), Ok(1000));
}

#[test]
fn half_target_then_contributor_is_refunded() {
    let owner = party(1);
    let donor = party(2);
    let mut c = campaign(1000, 10, 1000, 1000);
    assert_eq!(c.fund(&donor, 500, 50), Ok(()));
    assert_eq!(c.status(101), Status::Failed);
    assert_eq!(c.claim(&owner, 101), Ok(0));
    assert_eq!(c.get_current_funds(), 500);
    assert_eq!(recorded(&c, &donor), 500);
    assert_eq!(c.claim(&donor, 101), Ok(500));
    assert_eq!(c.get_current_funds(), 0);
    assert_eq!(recorded(&c, &donor), 0);
}

#[test]
fn contribution_below_the_minimum_is_rejected() {
    let donor = party(2);
    let mut c = campaign(1000, 10, 1000, 1000);
    assert_eq!(c.fund(&donor, 5, 50), Err(LedgerError::BelowMinimumContribution));
    assert_eq!(recorded(&c, &donor), 0);
    assert_eq!(c.get_current_funds(), 0);
    assert_eq!(c.fund(&donor, 10, 50), Ok(()));
    assert_eq!(recorded(&c, &donor), 10);
}

#[test]
fn contribution_over_the_hard_cap_is_rejected() {
    let first = party(2);
    let second = party(3);
    let mut c = campaign(50, 1, 100, 100);
    assert_eq!(c.fund(&first, 95, 50), Ok(()));
    assert_eq!(c.fund(&second, 10, 51), Err(LedgerError::HardCapExceeded));
    assert_eq!(c.get_current_funds(), 95);
    assert_eq!(recorded(&c, &first), 95);
    assert_eq!(recorded(&c, &second), 0);
    assert_eq!(c.fund(&second, 5, 52), Ok(()));
    assert_eq!(c.get_current_funds(), 100);
    assert_eq!(recorded(&c, &second), 5);
}

#[test]
fn contribution_over_the_user_cap_is_rejected() {
    let donor = party(2);
    let other = party(3);
    let mut c = campaign(1000, 10, 300, 1000);
    assert_eq!(c.fund(&donor, 200, 20), Ok(()));
    assert_eq!(c.fund(&donor, 101, 21), Err(LedgerError::PerUserCapExceeded));
    assert_eq!(recorded(&c, &donor), 200);
    assert_eq!(c.get_current_funds(), 200);
    assert_eq!(c.fund(&donor, 100, 22), Ok(()));
    assert_eq!(recorded(&c, &donor), 300);
    assert_eq!(c.fund(&other, 300, 23), Ok(()));
    assert_eq!(recorded(&c, &other), 300);
    assert_eq!(recorded(&c, &donor), 300);
    assert_eq!(c.get_current_funds(), 600);
}

#[test]
fn caps_hold_in_any_order_of_calls() {
    let mut c = campaign(100, 1, 40, 100);
    let mut clock = 11;
    for round in 0..6u8 {
        for tag in 2..6u8 {
            let who = party(tag);
            let _ = c.fund(&who, 7 + u128::from(round), clock);
            clock += 1;
            assert!(c.get_current_funds() <= 100);
            for seen in 2..6u8 {
                assert!(recorded(&c, &party(seen)) <= 40);
            }
        }
    }
    let sum: u128 = (2..6u8).map(|tag| recorded(&c, &party(tag))).sum();
    assert_eq!(sum, c.get_current_funds());
}

#[test]
fn contribution_at_the_deadline_is_rejected() {
    let donor = party(2);
    let mut c = campaign(1000, 10, 1000, 1000);
    assert_eq!(c.fund(&donor, 10, 99), Ok(()));
    assert_eq!(c.fund(&donor, 10, 100), Err(LedgerError::DeadlinePassed));
    assert_eq!(c.fund(&donor, 10, 101), Err(LedgerError::DeadlinePassed));
    assert_eq!(recorded(&c, &donor), 10);
    assert_eq!(c.status(100), Status::FundingPeriod);
}

#[test]
fn rules_are_tried_in_order() {
    let donor = party(2);
    let mut c = campaign(50, 10, 20, 50);
    assert_eq!(c.fund(&donor, 5, 200), Err(LedgerError::BelowMinimumContribution));
    assert_eq!(c.fund(&donor, 60, 200), Err(LedgerError::DeadlinePassed));
    assert_eq!(c.fund(&donor, 60, 50), Err(LedgerError::HardCapExceeded));
    assert_eq!(c.fund(&donor, 21, 50), Err(LedgerError::PerUserCapExceeded));
    assert_eq!(c.get_current_funds(), 0);
}

#[test]
fn huge_amounts_do_not_wrap() {
    let donor = party(2);
    let mut c =
        CrowdfundingSc::init(party(1), 1, 100, 1, u128::MAX, u128::MAX, 10).unwrap();
    assert_eq!(c.fund(&donor, u128::MAX - 1, 20), Ok(()));
    assert_eq!(c.fund(&donor, 2, 21), Err(LedgerError::HardCapExceeded));
    assert_eq!(c.fund(&donor, 1, 22), Ok(()));
    assert_eq!(recorded(&c, &donor), u128::MAX);
    assert_eq!(c.get_current_funds(), u128::MAX);
}

#[test]
fn claim_before_the_deadline_is_too_early() {
    let owner = party(1);
    let donor = party(2);
    let mut c = campaign(1000, 10, 1000, 1000);
    assert_eq!(c.fund(&donor, 1000, 50), Ok(()));
    assert_eq!(c.claim(&owner, 99), Err(LedgerError::ClaimTooEarly));
    assert_eq!(c.claim(&donor, 100), Err(LedgerError::ClaimTooEarly));
    assert_eq!(c.get_current_funds(), 1000);
    assert_eq!(recorded(&c, &donor), 1000);
}

#[test]
fn refund_is_paid_once() {
    let a = party(2);
    let b = party(3);
    let mut c = campaign(1000, 10, 1000, 1000);
    assert_eq!(c.fund(&a, 300, 20), Ok(()));
    assert_eq!(c.fund(&b, 200, 21), Ok(()));
    assert_eq!(c.claim(&a, 150), Ok(300));
    assert_eq!(recorded(&c, &a), 0);
    assert_eq!(recorded(&c, &b), 200);
    assert_eq!(c.get_current_funds(), 200);
    assert_eq!(c.claim(&a, 151), Ok(0));
    assert_eq!(c.get_current_funds(), 200);
    assert_eq!(c.claim(&b, 152), Ok(200));
    assert_eq!(c.get_current_funds(), 0);
    assert_eq!(c.claim(&party(9), 153), Ok(0));
}

#[test]
fn payout_is_paid_once() {
    let owner = party(1);
    let a = party(2);
    let b = party(3);
    let mut c = campaign(500, 10, 1000, 1000);
    assert_eq!(c.fund(&a, 300, 20), Ok(()));
    assert_eq!(c.fund(&b, 250, 21), Ok(()));
    assert_eq!(c.fund(&owner, 50, 22), Ok(()));
    assert_eq!(c.status(150), Status::Successful);
    assert_eq!(c.claim(&owner, 150), Ok(600));
    assert_eq!(c.claim(&owner, 151), Ok(0));
    assert_eq!(c.claim(&a, 152), Ok(0));
    assert_eq!(c.get_current_funds(), 0);
    assert_eq!(recorded(&c, &a), 300);
    assert_eq!(recorded(&c, &owner), 50);
}

#[test]
fn deposit_rejects_a_malformed_identity() {
    let c = campaign(1000, 10, 1000, 1000);
    assert_eq!(c.deposit(&[7u8; 31]), Err(LedgerError::InvalidInput));
    assert_eq!(c.deposit(&[7u8; 33]), Err(LedgerError::InvalidInput));
    assert_eq!(c.deposit(&[]), Err(LedgerError::InvalidInput));
    assert_eq!(c.deposit(&[7u8; 32]), Ok(0));
}
