use grant_contracts::engine::GrantContract;
use grant_contracts::records::GrantStatus;
use grant_contracts::records::TransferSource;

const ADMIN: u64 = 11;
const GRANTEE: u64 = 22;
const TOKEN: u64 = 33;

#[test]
fn test_multiple_milestones() {
    let mut engine = GrantContract::new();

    // Create a grant
    let grant_id: u64 = 1;
    engine
        .create_grant(grant_id, ADMIN, GRANTEE, 1_000_000, TOKEN, 0)
        .unwrap();

    // Add multiple milestones
    let milestone_1: u64 = 1;
    let milestone_2: u64 = 2;
    let milestone_3: u64 = 3;

    engine
        .add_milestone(ADMIN, grant_id, milestone_1, 250_000, String::from("Phase 1"))
        .unwrap();
    engine
        .add_milestone(ADMIN, grant_id, milestone_2, 350_000, String::from("Phase 2"))
        .unwrap();
    engine
        .add_milestone(ADMIN, grant_id, milestone_3, 400_000, String::from("Phase 3"))
        .unwrap();

    // Approve first milestone
    engine.approve_milestone(ADMIN, grant_id, milestone_1, 0).unwrap();
    let grant_info = engine.get_grant(grant_id).unwrap();
    assert_eq!(grant_info.released_amount, 250_000);

    // Approve second milestone
    engine.approve_milestone(ADMIN, grant_id, milestone_2, 0).unwrap();
    let grant_info = engine.get_grant(grant_id).unwrap();
    assert_eq!(grant_info.released_amount, 600_000);

    // Approve third milestone
    engine.approve_milestone(ADMIN, grant_id, milestone_3, 0).unwrap();
    let grant_info = engine.get_grant(grant_id).unwrap();
    assert_eq!(grant_info.released_amount, 1_000_000);
}

#[test]
fn test_double_release_prevention() {
    let mut engine = GrantContract::new();

    // Create a grant and milestone
    let grant_id: u64 = 2;
    engine
        .create_grant(grant_id, ADMIN, GRANTEE, 1_000_000, TOKEN, 0)
        .unwrap();

    let milestone_id: u64 = 1;
    engine
        .add_milestone(ADMIN, grant_id, milestone_id, 500_000, String::from("Test"))
        .unwrap();

    // Approve once
    engine.approve_milestone(ADMIN, grant_id, milestone_id, 0).unwrap();

    // Try to approve again - should fail
    let result = engine.approve_milestone(ADMIN, grant_id, milestone_id, 0);
    assert!(result.is_err());
}

#[test]
fn test_get_remaining_amount() {
    let mut engine = GrantContract::new();

    // Create a grant
    let grant_id: u64 = 3;
    engine
        .create_grant(grant_id, ADMIN, GRANTEE, 1_000_000, TOKEN, 0)
        .unwrap();

    // Check remaining amount before any releases
    let remaining = engine.get_remaining_amount(grant_id).unwrap();
    assert_eq!(remaining, 1_000_000);

    // Add and approve a milestone
    let milestone_id: u64 = 1;
    engine
        .add_milestone(ADMIN, grant_id, milestone_id, 400_000, String::from("Phase 1"))
        .unwrap();
    engine.approve_milestone(ADMIN, grant_id, milestone_id, 0).unwrap();

    // Check remaining amount after release
    let remaining = engine.get_remaining_amount(grant_id).unwrap();
    assert_eq!(remaining, 600_000);
}

#[test]
fn test_exceed_total_grant_amount() {
    let mut engine = GrantContract::new();

    // Create a grant with 1M total
    let grant_id: u64 = 4;
    engine
        .create_grant(grant_id, ADMIN, GRANTEE, 1_000_000, TOKEN, 0)
        .unwrap();

    // Add milestone for 600K
    let milestone_1: u64 = 1;
    engine
        .add_milestone(ADMIN, grant_id, milestone_1, 600_000, String::from("Phase 1"))
        .unwrap();
    engine.approve_milestone(ADMIN, grant_id, milestone_1, 0).unwrap();

    // Add milestone for 500K (would exceed total)
    let milestone_2: u64 = 2;
    engine
        .add_milestone(ADMIN, grant_id, milestone_2, 500_000, String::from("Phase 2"))
        .unwrap();

    // Trying to approve should fail
    let result = engine.approve_milestone(ADMIN, grant_id, milestone_2, 0);
    assert!(result.is_err());
}

#[test]
fn test_custom_token_with_transfer_fee() {
    let mut engine = GrantContract::new();

    // A simulated fee-charging token ledger: plain balances, and a transfer
    // that delivers slightly less than it draws.
    let mut admin_balance: u128 = 1_000_000;
    let mut grantee_balance: u128 = 0;
    let contract_balance: u128 = 0;
    let fee: u128 = 1_000;

    // Create a grant with the custom token
    let grant_id: u64 = 5;
    engine
        .create_grant(grant_id, ADMIN, GRANTEE, 500_000, TOKEN, 0)
        .unwrap();

    // Add milestone
    let milestone_id: u64 = 1;
    engine
        .add_milestone(ADMIN, grant_id, milestone_id, 100_000, String::from("Phase 1"))
        .unwrap();

    // Check contract balance before approval
    let contract_balance_before: u128 = contract_balance;

    // Approve milestone - the engine commits state, then hands out the
    // transfer; fees change what arrives, never the engine's accounting.
    let transfer = engine.approve_milestone(ADMIN, grant_id, milestone_id, 0).unwrap();
    assert_eq!(transfer.from, TransferSource::Account(ADMIN));
    admin_balance -= transfer.amount;
    grantee_balance += transfer.amount - fee;
    let _ = admin_balance;

    // Verify contract balance tracks correctly (accounting for potential fees)
    let contract_balance_after: u128 = contract_balance;

    // The grantee should receive tokens (amount might be less due to fees)
    assert!(grantee_balance > 0);

    // Contract should have remaining balance
    assert_eq!(contract_balance_after, contract_balance_before);

    // Verify grant state
    let grant_info = engine.get_grant(grant_id).unwrap();
    assert_eq!(grant_info.released_amount, 100_000);
}

#[test]
fn test_long_pause_duration() {
    let mut engine = GrantContract::new();

    // Create a grant
    let grant_id: u64 = 6;
    engine
        .create_grant(grant_id, ADMIN, GRANTEE, 1_000_000, TOKEN, 0)
        .unwrap();

    // Add milestone
    let milestone_id: u64 = 1;
    engine
        .add_milestone(ADMIN, grant_id, milestone_id, 500_000, String::from("Phase 1"))
        .unwrap();

    // Activate the grant
    engine.activate_grant(ADMIN, grant_id).unwrap();

    // Simulate long pause (100 years in seconds)
    let hundred_years_seconds: u64 = 100 * 365 * 24 * 60 * 60;
    let mut now: u64 = hundred_years_seconds;

    // Pause the grant
    engine.pause_grant(ADMIN, grant_id).unwrap();

    // Verify grant is paused
    let grant_info = engine.get_grant(grant_id).unwrap();
    assert_eq!(grant_info.status, GrantStatus::Paused);

    // Resume after long pause
    engine.resume_grant(ADMIN, grant_id).unwrap();

    // Verify grant is active again
    let grant_info_after = engine.get_grant(grant_id).unwrap();
    assert_eq!(grant_info_after.status, GrantStatus::Active);

    // Approve milestone should still work after long pause
    now += 1;
    engine.approve_milestone(ADMIN, grant_id, milestone_id, now).unwrap();

    // Verify released + remaining == initial deposit
    let remaining = engine.get_remaining_amount(grant_id).unwrap();
    let grant_info_final = engine.get_grant(grant_id).unwrap();
    assert_eq!(grant_info_final.released_amount + remaining, 1_000_000);
}

// Fuzz test for extreme pause durations
#[test]
fn test_fuzz_extreme_pause_durations() {
    let mut engine = GrantContract::new();

    // Test various extreme pause durations
    let test_durations: Vec<u64> = vec![
        0u64,            // No pause
        1u64,            // 1 second
        86_400u64,       // 1 day
        31_536_000u64,   // 1 year
        3_153_600_000u64, // 100 years
        u64::MAX / 2,    // Very large duration
    ];

    let mut now: u64 = 0;
    for (i, pause_duration) in test_durations.iter().enumerate() {
        let grant_id: u64 = i as u64;
        engine
            .create_grant(grant_id, ADMIN, GRANTEE, 1_000_000, TOKEN, now)
            .unwrap();

        let milestone_id: u64 = i as u64;
        engine
            .add_milestone(ADMIN, grant_id, milestone_id, 100_000, String::from("Test"))
            .unwrap();

        // Activate the grant
        engine.activate_grant(ADMIN, grant_id).unwrap();

        // Advance time by pause duration
        now = now.saturating_add(*pause_duration);

        // Pause and resume
        engine.pause_grant(ADMIN, grant_id).unwrap();

        // Verify paused status
        let grant_info_paused = engine.get_grant(grant_id).unwrap();
        assert_eq!(grant_info_paused.status, GrantStatus::Paused);

        engine.resume_grant(ADMIN, grant_id).unwrap();

        // Verify active status
        let grant_info_resumed = engine.get_grant(grant_id).unwrap();
        assert_eq!(grant_info_resumed.status, GrantStatus::Active);

        // Approve milestone
        engine.approve_milestone(ADMIN, grant_id, milestone_id, now).unwrap();

        // Verify invariants
        let remaining = engine.get_remaining_amount(grant_id).unwrap();
        let grant_info = engine.get_grant(grant_id).unwrap();
        assert_eq!(grant_info.released_amount + remaining, 1_000_000);
    }
}
