use donacions::{
    CampaignParameters, ContributorLedger, Identity, LedgerError, Settlement, Status,
};

fn params() -> CampaignParameters {
    CampaignParameters {
        target: 1000,
        deadline: 100,
        min_contribution: 10,
        max_per_user: 400,
        max_cap: 2000,
    }
}

#[test]
fn checked_returns_what_it_was_given() {
    let p = CampaignParameters::checked(1000, 100, 10, 400, 2000, 99).unwrap();
    assert_eq!(p, params());
    assert_eq!(
        CampaignParameters::checked(1000, 100, 10, 400, 2000, 100),
        Err(LedgerError::InvalidParameters)
    );
}

#[test]
fn status_turns_after_the_deadline() {
    let p = params();
    assert_eq!(p.status(5000, 100), Status::FundingPeriod);
    assert_eq!(p.status(1000, 101), Status::Successful);
    assert_eq!(p.status(999, 101), Status::Failed);
    assert_eq!(p.status(0, u64::MAX), Status::Failed);
}

#[test]
fn accept_gives_the_new_record() {
    let p = params();
    assert_eq!(p.accept(500, 150, 25, 50), Ok(175));
    assert_eq!(p.accept(0, 0, 400, 0), Ok(400));
    assert_eq!(p.accept(1990, 0, 10, 99), Ok(10));
}

#[test]
fn accept_names_the_first_rule_broken() {
    let p = params();
    assert_eq!(p.accept(0, 0, 9, 50), Err(LedgerError::BelowMinimumContribution));
    assert_eq!(p.accept(0, 0, 10, 100), Err(LedgerError::DeadlinePassed));
    assert_eq!(p.accept(1991, 0, 10, 50), Err(LedgerError::HardCapExceeded));
    assert_eq!(p.accept(3000, 0, 10, 50), Err(LedgerError::HardCapExceeded));
    assert_eq!(p.accept(0, 391, 10, 50), Err(LedgerError::PerUserCapExceeded));
    assert_eq!(p.accept(0, 500, 10, 50), Err(LedgerError::PerUserCapExceeded));
    assert_eq!(p.accept(u128::MAX, 0, 10, 50), Err(LedgerError::HardCapExceeded));
    assert_eq!(p.accept(0, u128::MAX, 10, 50), Err(LedgerError::PerUserCapExceeded));
}

#[test]
fn settle_follows_the_status() {
    let p = params();
    assert_eq!(p.settle(1500, 0, true, 100), Err(LedgerError::ClaimTooEarly));
    assert_eq!(p.settle(1500, 0, true, 101), Ok(Settlement::Payout(1500)));
    assert_eq!(p.settle(1500, 300, false, 101), Err(LedgerError::Unauthorized));
    assert_eq!(p.settle(900, 300, false, 101), Ok(Settlement::Refund(300)));
    assert_eq!(p.settle(900, 300, true, 101), Ok(Settlement::Refund(300)));
    assert_eq!(p.settle(900, 0, false, 101), Ok(Settlement::Nothing));
    assert_eq!(p.settle(0, 300, false, 101), Ok(Settlement::Nothing));
    assert_eq!(p.settle(299, 300, false, 101), Ok(Settlement::Nothing));
}

#[test]
fn settlement_amounts() {
    assert_eq!(Settlement::Nothing.amount(), 0);
    assert_eq!(Settlement::Payout(7).amount(), 7);
    assert_eq!(Settlement::Refund(9).amount(), 9);
}

#[test]
fn identity_from_bytes_needs_the_full_length() {
    let mut raw = [0u8; 32];
    for (i, b) in raw.iter_mut().enumerate() {
        *b = i as u8;
    }
    let id = Identity::from_bytes(&raw).unwrap();
    assert_eq!(id.to_bytes(), raw);
    assert_eq!(id, Identity::new(raw));
    assert_eq!(Identity::from_bytes(&raw[..31]), Err(LedgerError::InvalidInput));
    assert_eq!(Identity::from_bytes(&[0u8; 40]), Err(LedgerError::InvalidInput));
}

#[test]
fn identities_differ_by_any_byte() {
    let a = Identity::new([3u8; 32]);
    let mut raw = [3u8; 32];
    assert!(a.same(&Identity::new(raw)));
    raw[31] = 4;
    assert!(!a.same(&Identity::new(raw)));
    raw[31] = 3;
    raw[0] = 0;
    assert!(!a.same(&Identity::new(raw)));
}

#[test]
fn ledger_sets_and_clears_records() {
    let a = Identity::new([1u8; 32]);
    let b = Identity::new([2u8; 32]);
    let mut ledger = ContributorLedger::new();
    assert_eq!(ledger.get(&a), 0);
    ledger.set(&a, 5);
    ledger.set(&b, 7);
    ledger.set(&a, 6);
    assert_eq!(ledger.get(&a), 6);
    assert_eq!(ledger.get(&b), 7);
    ledger.clear(&a);
    assert_eq!(ledger.get(&a), 0);
    assert_eq!(ledger.get(&b), 7);
    ledger.clear(&a);
    assert_eq!(ledger.get(&b), 7);
}

#[test]
fn amounts_are_read_from_big_endian_digits() {
    assert_eq!(donacions::amount_from_digits(&[]), Some(0));
    assert_eq!(donacions::amount_from_digits(&[0]), Some(0));
    assert_eq!(donacions::amount_from_digits(&[1, 0]), Some(256));
    assert_eq!(donacions::amount_from_digits(&[0x03, 0xe8]), Some(1000));
    assert_eq!(donacions::amount_from_digits(&[0, 0, 0x03, 0xe8]), Some(1000));
    assert_eq!(donacions::amount_from_digits(&[0xff; 16]), Some(u128::MAX));
    let mut padded = [0xffu8; 20];
    padded[..4].copy_from_slice(&[0; 4]);
    assert_eq!(donacions::amount_from_digits(&padded), Some(u128::MAX));
}

#[test]
fn amounts_that_do_not_fit_are_refused() {
    let mut wide = [0u8; 17];
    wide[0] = 1;
    assert_eq!(donacions::amount_from_digits(&wide), None);
    assert_eq!(donacions::amount_from_digits(&[0xff; 17]), None);
    assert_eq!(donacions::amount_from_digits(&[1; 40]), None);
}
