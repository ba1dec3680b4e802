use vesting::{Address, EmployeeAccount, ErrorCode};

fn addr(b: u8) -> Address {
    Address::new([b; 32])
}

fn grant(start: i64, end: i64, total: u64, cliff: i64) -> EmployeeAccount {
    EmployeeAccount::new(addr(1), addr(2), start, end, total, cliff, 255)
}

#[test]
fn half_way_claim_then_nothing_left() {
    let mut g = grant(0, 100, 1000, 0);
    assert_eq!(g.claim(50), Ok(500));
    assert_eq!(g.total_claimed, 500);
    assert_eq!(g.claim(50), Err(ErrorCode::NoTokensToClaim));
    assert_eq!(g.total_claimed, 500);
}

#[test]
fn cliff_blocks_then_releases() {
    let mut g = grant(0, 100, 1000, 30);
    assert_eq!(g.claim(10), Err(ErrorCode::ClaimNotAvailable));
    assert_eq!(g.total_claimed, 0);
    assert_eq!(g.claim(30), Ok(300));
    assert_eq!(g.total_claimed, 300);
}

#[test]
fn empty_period_is_rejected() {
    let mut g = grant(50, 50, 1000, 0);
    assert_eq!(g.claim(10), Err(ErrorCode::InvalidVestingPeriod));
    assert_eq!(g.claim(50), Err(ErrorCode::InvalidVestingPeriod));
    assert_eq!(g.claim(1_000_000), Err(ErrorCode::InvalidVestingPeriod));
    assert_eq!(g.total_claimed, 0);
}

#[test]
fn before_cliff_leaves_grant_unchanged() {
    let mut g = grant(0, 100, 1000, 60);
    g.total_claimed = 0;
    let before = g;
    assert_eq!(g.claim(59), Err(ErrorCode::ClaimNotAvailable));
    assert_eq!(g.total_claimed, before.total_claimed);
    assert_eq!(g.claimable_amount(-5), Err(ErrorCode::ClaimNotAvailable));
}

#[test]
fn full_amount_at_and_after_end() {
    let g = grant(0, 3, 10, 0);
    assert_eq!(g.vested_amount(2), Ok(6));
    assert_eq!(g.vested_amount(3), Ok(10));
    assert_eq!(g.vested_amount(i64::MAX), Ok(10));
    let mut h = grant(0, 3, 10, 0);
    assert_eq!(h.claim(1), Ok(3));
    assert_eq!(h.claim(3), Ok(7));
    assert_eq!(h.total_claimed, 10);
    assert_eq!(h.claim(4), Err(ErrorCode::NoTokensToClaim));
}

#[test]
fn prorated_amount_rounds_down() {
    let g = grant(0, 3, 100, 0);
    assert_eq!(g.vested_amount(1), Ok(33));
    assert_eq!(g.vested_amount(2), Ok(66));
    let h = grant(1000, 1007, 50, 1000);
    assert_eq!(h.vested_amount(1003), Ok(21));
}

#[test]
fn claims_over_time_never_decrease_and_stay_within_total() {
    let mut g = grant(0, 100, 1000, 10);
    let mut last = 0;
    for t in [0i64, 10, 10, 25, 40, 99, 100, 150, 150, 400] {
        let _ = g.claim(t);
        assert!(g.total_claimed >= last);
        assert!(g.total_claimed <= g.total_amount);
        last = g.total_claimed;
    }
    assert_eq!(g.total_claimed, 1000);
}

#[test]
fn overflowing_product_is_reported() {
    let g = grant(0, 100, u64::MAX, 0);
    assert_eq!(g.vested_amount(50), Err(ErrorCode::OverflowError));
    assert_eq!(g.vested_amount(100), Ok(u64::MAX));
    let mut h = grant(0, 100, u64::MAX, 0);
    assert_eq!(h.claim(2), Err(ErrorCode::OverflowError));
    assert_eq!(h.total_claimed, 0);
}

#[test]
fn claim_before_start_has_nothing_to_pay() {
    let mut g = grant(100, 200, 1000, 0);
    assert_eq!(g.vested_amount(50), Ok(0));
    assert_eq!(g.claim(50), Err(ErrorCode::NoTokensToClaim));
}

#[test]
fn reversed_schedule_pays_in_full_from_end() {
    let g = grant(200, 100, 1000, 0);
    assert_eq!(g.vested_amount(50), Ok(0));
    assert_eq!(g.vested_amount(100), Ok(1000));
    assert_eq!(g.vested_amount(150), Ok(1000));
}

#[test]
fn wide_schedule_does_not_saturate() {
    let g = grant(i64::MIN, i64::MAX, 1, i64::MIN);
    assert_eq!(g.vested_amount(0), Ok(0));
    assert_eq!(g.vested_amount(i64::MAX), Ok(1));
    let h = grant(i64::MIN, i64::MAX, 3, i64::MIN);
    assert_eq!(h.vested_amount(0), Err(ErrorCode::OverflowError));
}

#[test]
fn error_messages() {
    assert_eq!(ErrorCode::ClaimNotAvailable.message(), "Claim not available");
    assert_eq!(ErrorCode::NoTokensToClaim.message(), "No tokens to claim");
    assert_eq!(ErrorCode::DuplicateGrant.message(), "Employee account already exists");
    assert_eq!(ErrorCode::NotPoolOwner.message(), "Signer does not own the vesting account");
}
