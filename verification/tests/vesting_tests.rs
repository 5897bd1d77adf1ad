use grant_contracts::vesting::compute_claimable_balance;

#[test]
fn test_grant_simulation_10_years() {
    // 10 years in seconds
    let duration: u64 = 315_360_000;

    // Total grant amount
    let total: u128 = 1_000_000_000u128;

    // Use a realistic large timestamp to catch overflow issues
    let start: u64 = 1_700_000_000;

    // Start: nothing should be claimable
    let claim0 = compute_claimable_balance(total, start, start, duration);
    assert_eq!(claim0, 0);

    // Year 5: exactly 50%
    let year5: u64 = start + duration / 2;
    let claim5 = compute_claimable_balance(total, start, year5, duration);
    assert_eq!(claim5, total / 2);

    // Year 10: 100% vested
    let year10: u64 = start + duration;
    let claim10 = compute_claimable_balance(total, start, year10, duration);
    assert_eq!(claim10, total);

    // After expiry: must remain capped at total
    let after: u64 = year10 + 1_000_000;
    let claim_after = compute_claimable_balance(total, start, after, duration);
    assert_eq!(claim_after, total);

    // Verify constant equals 10-year duration
    assert_eq!(duration, 315_360_000u64);
}

#[test]
fn instantaneous_cliff_pays_all_once_started() {
    // duration == 0: everything at or after start, nothing before
    assert_eq!(compute_claimable_balance(1_000, 100, 99, 0), 0);
    assert_eq!(compute_claimable_balance(1_000, 100, 100, 0), 1_000);
    assert_eq!(compute_claimable_balance(1_000, 100, 101, 0), 1_000);
}

#[test]
fn nothing_vests_before_or_at_start() {
    assert_eq!(compute_claimable_balance(1_000, 100, 0, 50), 0);
    assert_eq!(compute_claimable_balance(1_000, 100, 100, 50), 0);
}

#[test]
fn partial_vesting_is_the_floored_proportion() {
    // Small enough to cross-check against the plain product formula.
    let total: u128 = 1_000_000_000_000;
    let duration: u64 = 315_360_000;
    let elapsed: u64 = 12_345;
    let claim = compute_claimable_balance(total, 0, elapsed, duration);
    assert_eq!(claim, total * (elapsed as u128) / (duration as u128));

    // Floor behavior: 10 over 4 seconds, 1 second in, pays 2 (not 2.5).
    assert_eq!(compute_claimable_balance(10, 0, 1, 4), 2);
}

#[test]
fn huge_amounts_never_overflow_or_exceed_total() {
    let total: u128 = u128::MAX;
    let duration: u64 = u64::MAX;
    let claim_mid = compute_claimable_balance(total, 0, u64::MAX / 2, duration);
    assert!(claim_mid <= total);
    let claim_end = compute_claimable_balance(total, 1, u64::MAX, duration);
    assert!(claim_end <= total);
    assert_eq!(compute_claimable_balance(total, 0, u64::MAX, duration), total);
}
