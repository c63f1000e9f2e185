use pulsartrack::common::{Auth, Error, Ledger};
use pulsartrack::fraud_prevention::{FraudPreventionContract, SuspendRequest, view_id_data};

fn ok<T>(r: Result<T, Error>) -> T {
    match r {
        Ok(v) => v,
        Err(e) => panic!("{}", e.message()),
    }
}

fn at(timestamp: u64) -> Ledger {
    Ledger { timestamp, sequence: 0 }
}

const ADMIN: u64 = 1;
const PUBLISHER: u64 = 5;

fn setup() -> FraudPreventionContract {
    let mut c = FraudPreventionContract::new();
    ok(c.initialize(&Auth::all(), ADMIN));
    c
}

#[test]
fn fraud_prevention_test_initialize() {
    setup();
}

#[test]
fn fraud_prevention_test_initialize_twice() {
    let mut c = setup();
    assert_eq!(c.initialize(&Auth::all(), ADMIN), Err(Error::AlreadyInitialized));
}

#[test]
fn fraud_prevention_test_initialize_non_admin_fails() {
    let mut c = FraudPreventionContract::new();
    assert_eq!(c.initialize(&Auth::none(), ADMIN), Err(Error::AuthRequired));
}

#[test]
fn test_fraud_integration() {
    let mut c = setup();
    ok(c.set_dependent_contracts(&Auth::all(), ADMIN, 10, 11, 12));
    ok(c.set_threshold(&Auth::all(), ADMIN, 90));
    ok(c.flag_suspicious(&at(0), PUBLISHER));
}

#[test]
fn fraud_view_id_bytes_are_big_endian() {
    let mut expected = [0u8; 32];
    expected[0..8].copy_from_slice(&[1, 2, 3, 4, 5, 6, 7, 8]);
    expected[15] = 2;
    expected[23] = 3;
    expected[24..32].copy_from_slice(&[0, 0, 0, 0, 0, 0, 1, 0]);
    assert_eq!(view_id_data(0x0102030405060708, 2, 3, 256), expected);
}

#[test]
fn fraud_verify_view_and_duplicate() {
    let mut c = setup();
    assert_eq!(c.verify_view(&at(100), 7, PUBLISHER, 20, None), Ok(true));
    assert_eq!(c.get_total_verifications(), 1);
    let stats = c.get_verification_stats(&at(100), 7);
    assert_eq!(stats.total_views, 1);
    assert_eq!(stats.verified_views, 1);
    assert_eq!(stats.average_score, 80);
    // The same view again is a duplicate.
    assert_eq!(c.verify_view(&at(100), 7, PUBLISHER, 20, None), Err(Error::DuplicateView));
    // Another viewer, another publisher or another moment makes another view.
    assert_eq!(c.verify_view(&at(100), 7, PUBLISHER, 21, None), Ok(true));
    assert_eq!(c.verify_view(&at(100), 7, 6, 20, None), Ok(true));
    assert_eq!(c.verify_view(&at(101), 7, PUBLISHER, 20, None), Ok(true));
    assert_eq!(c.get_verification_stats(&at(101), 7).total_views, 4);
    assert_eq!(c.verify_view(&at(102), 8, PUBLISHER, 20, Some([9u8; 32])), Ok(true));
    let stats = c.get_verification_stats(&at(102), 8);
    assert_eq!(stats.average_score, 90);
    assert_eq!(c.get_total_verifications(), 5);
}

#[test]
fn fraud_verify_view_with_id_refuses_a_recorded_id() {
    let mut c = setup();
    assert_eq!(c.verify_view_with_id(&at(5), [3u8; 32], 1, PUBLISHER, 20, None), Ok(true));
    assert_eq!(c.verify_view_with_id(&at(6), [3u8; 32], 2, 6, 21, None), Err(Error::DuplicateView));
    assert_eq!(c.verify_view_with_id(&at(6), [4u8; 32], 2, 6, 21, None), Ok(true));
    assert_eq!(c.get_total_verifications(), 2);
}

#[test]
fn fraud_threshold_refuses_and_keeps_state() {
    let mut c = setup();
    ok(c.set_threshold(&Auth::all(), ADMIN, 85));
    assert_eq!(c.verify_view(&at(0), 1, PUBLISHER, 20, None), Err(Error::VerificationFailed));
    assert_eq!(c.get_total_verifications(), 0);
    assert_eq!(c.get_verification_stats(&at(0), 1).total_views, 0);
    // With a proof the view scores 90 and passes.
    assert_eq!(c.verify_view(&at(0), 1, PUBLISHER, 20, Some([1u8; 32])), Ok(true));
    assert_eq!(c.set_threshold(&Auth::all(), ADMIN, 49), Err(Error::InvalidThreshold));
    assert_eq!(c.set_threshold(&Auth::all(), ADMIN, 101), Err(Error::InvalidThreshold));
    assert_eq!(c.set_threshold(&Auth::all(), 9, 60), Err(Error::Unauthorized));
}

#[test]
fn fraud_rate_limit_per_viewer_hour() {
    let mut c = setup();
    for campaign in 0..10u64 {
        assert_eq!(c.verify_view(&at(3600), campaign, PUBLISHER, 20, None), Ok(true));
    }
    assert_eq!(c.verify_view(&at(3700), 100, PUBLISHER, 20, None), Err(Error::RateLimitExceeded));
    // Another viewer, or the next hour, is not limited.
    assert_eq!(c.verify_view(&at(3700), 100, PUBLISHER, 21, None), Ok(true));
    assert_eq!(c.verify_view(&at(7200), 101, PUBLISHER, 20, None), Ok(true));
}

#[test]
fn fraud_flags_suspend_past_threshold() {
    let mut c = setup();
    ok(c.set_dependent_contracts(&Auth::all(), ADMIN, 10, 11, 12));
    for _ in 0..100 {
        assert_eq!(c.flag_suspicious(&at(5), PUBLISHER), Ok(None));
    }
    assert!(!c.is_publisher_suspended(PUBLISHER));
    assert_eq!(
        c.flag_suspicious(&at(6), PUBLISHER),
        Ok(Some(SuspendRequest { network: 11, publisher: PUBLISHER }))
    );
    assert!(c.is_publisher_suspended(PUBLISHER));
    let a = c.get_suspicious_status(PUBLISHER).unwrap();
    assert_eq!(a.suspicious_views, 101);
    assert_eq!(a.total_flags, 101);
    assert_eq!(a.last_flagged, 6);
    ok(c.clear_flag(&Auth::all(), ADMIN, PUBLISHER));
    assert!(c.get_suspicious_status(PUBLISHER).is_none());
    assert!(!c.is_publisher_suspended(PUBLISHER));
}
