use pulsartrack::anomaly_detector::{AnomalyDetectorContract, AnomalySeverity, AnomalyType};
use pulsartrack::common::{Auth, Error, Ledger};

fn ok<T>(r: Result<T, Error>) -> T {
    match r {
        Ok(v) => v,
        Err(e) => panic!("{}", e.message()),
    }
}

fn ledger() -> Ledger {
    Ledger { timestamp: 0, sequence: 0 }
}

const ADMIN: u64 = 1;
const ORACLE: u64 = 2;
const PUBLISHER: u64 = 3;
const STRANGER: u64 = 99;

fn setup() -> AnomalyDetectorContract {
    let mut c = AnomalyDetectorContract::new();
    ok(c.initialize(&Auth::all(), ADMIN, ORACLE));
    c
}

fn report(c: &mut AnomalyDetectorContract, severity: AnomalySeverity, impressions: u64, clicks: u64) -> Result<u64, Error> {
    c.report_anomaly(
        &Auth::all(),
        &ledger(),
        ORACLE,
        1,
        Some(PUBLISHER),
        AnomalyType::ClickFarming,
        severity,
        "spike".to_string(),
        "{}".to_string(),
        true,
        impressions,
        clicks,
    )
}

#[test]
fn test_initialize() {
    setup();
}

#[test]
#[should_panic(expected = "already initialized")]
fn test_initialize_twice() {
    let mut c = AnomalyDetectorContract::new();
    ok(c.initialize(&Auth::all(), ADMIN, ORACLE));
    ok(c.initialize(&Auth::all(), ADMIN, ORACLE));
}

#[test]
#[should_panic]
fn test_initialize_non_admin_fails() {
    let mut c = AnomalyDetectorContract::new();
    ok(c.initialize(&Auth::none(), 10, 11));
}

#[test]
fn test_set_baseline() {
    let mut c = setup();
    ok(c.set_baseline(&Auth::all(), &ledger(), ORACLE, 1, 1000, 50, 5));
    let bl = c.get_baseline(1).unwrap();
    assert_eq!(bl.avg_impressions_per_hour, 1000);
    assert_eq!(bl.avg_clicks_per_hour, 50);
}

#[test]
#[should_panic(expected = "unauthorized")]
fn test_set_baseline_unauthorized() {
    let mut c = setup();
    ok(c.set_baseline(&Auth::all(), &ledger(), STRANGER, 1, 1000, 50, 5));
}

#[test]
fn test_report_anomaly() {
    let mut c = setup();
    ok(c.set_baseline(&Auth::all(), &ledger(), ORACLE, 1, 1000, 50, 300));
    ok(report(&mut c, AnomalySeverity::Critical, 4000, 200));
    assert_eq!(c.get_report_count(), 1);
    assert!(c.is_publisher_flagged(PUBLISHER));
}

#[test]
fn test_get_baseline_nonexistent() {
    let c = setup();
    assert!(c.get_baseline(999).is_none());
}

#[test]
fn test_is_publisher_flagged_false() {
    let c = setup();
    assert!(!c.is_publisher_flagged(STRANGER));
}

#[test]
fn test_get_report_count_initial() {
    let c = setup();
    assert_eq!(c.get_report_count(), 0);
}

#[test]
#[should_panic(expected = "metrics do not exceed baseline thresholds")]
fn test_report_anomaly_below_threshold() {
    let mut c = setup();
    ok(c.set_baseline(&Auth::all(), &ledger(), ORACLE, 1, 1000, 50, 300));
    ok(report(&mut c, AnomalySeverity::Critical, 2000, 100));
}

#[test]
fn test_report_anomaly_no_baseline() {
    let mut c = setup();
    ok(report(&mut c, AnomalySeverity::Critical, 4000, 200));
    assert_eq!(c.get_report_count(), 1);
}

#[test]
fn test_report_anomaly_clicks_exceed_threshold() {
    let mut c = setup();
    ok(c.set_baseline(&Auth::all(), &ledger(), ORACLE, 1, 1000, 50, 300));
    ok(report(&mut c, AnomalySeverity::High, 2000, 200));
    assert_eq!(c.get_report_count(), 1);
}

#[test]
fn anomaly_threshold_is_exclusive() {
    let mut c = setup();
    ok(c.set_baseline(&Auth::all(), &ledger(), ORACLE, 1, 1000, 50, 300));
    // Exactly at the spike level (3000 impressions, 150 clicks) is refused.
    assert_eq!(report(&mut c, AnomalySeverity::Low, 3000, 150), Err(Error::MetricsBelowThreshold));
    assert_eq!(report(&mut c, AnomalySeverity::Low, 3001, 150), Ok(1));
    assert_eq!(c.get_report_count(), 1);
}

#[test]
fn anomaly_saturating_threshold() {
    let mut c = setup();
    // avg * pct overflows u64 and saturates: the level is u64::MAX / 100.
    ok(c.set_baseline(&Auth::all(), &ledger(), ORACLE, 1, u64::MAX, 0, 300));
    assert_eq!(report(&mut c, AnomalySeverity::Low, u64::MAX / 100, 0), Err(Error::MetricsBelowThreshold));
    assert_eq!(report(&mut c, AnomalySeverity::Low, u64::MAX / 100 + 1, 0), Ok(1));
}

#[test]
fn anomaly_non_critical_does_not_flag() {
    let mut c = setup();
    ok(report(&mut c, AnomalySeverity::High, 10, 10));
    assert!(!c.is_publisher_flagged(PUBLISHER));
    let r = c.get_report(1).unwrap();
    assert_eq!(r.report_id, 1);
    assert_eq!(r.publisher, Some(PUBLISHER));
    assert!(!r.resolved);
}

#[test]
fn anomaly_resolve_report() {
    let mut c = setup();
    ok(report(&mut c, AnomalySeverity::High, 10, 10));
    let at = Ledger { timestamp: 500, sequence: 7 };
    assert_eq!(c.resolve_anomaly(&Auth::all(), &at, STRANGER, 1), Err(Error::Unauthorized));
    assert_eq!(c.resolve_anomaly(&Auth::all(), &at, ADMIN, 2), Err(Error::ReportNotFound));
    ok(c.resolve_anomaly(&Auth::all(), &at, ADMIN, 1));
    let r = c.get_report(1).unwrap();
    assert!(r.resolved);
    assert_eq!(r.resolved_at, Some(500));
}

#[test]
fn anomaly_report_requires_oracle_auth() {
    let mut c = setup();
    let r = c.report_anomaly(
        &Auth::signed_by(vec![ADMIN]),
        &ledger(),
        ORACLE,
        1,
        None,
        AnomalyType::BotLikePattern,
        AnomalySeverity::Critical,
        "x".to_string(),
        "{}".to_string(),
        false,
        1,
        1,
    );
    assert_eq!(r, Err(Error::AuthRequired));
    assert_eq!(c.get_report_count(), 0);
}

#[test]
fn anomaly_admin_handover() {
    let mut c = setup();
    assert_eq!(c.accept_admin(&Auth::all(), 5), Err(Error::NoPendingAdmin));
    assert_eq!(c.propose_admin(&Auth::all(), STRANGER, 5), Err(Error::Unauthorized));
    ok(c.propose_admin(&Auth::all(), ADMIN, 5));
    assert_eq!(c.accept_admin(&Auth::all(), 6), Err(Error::NotPendingAdmin));
    ok(c.accept_admin(&Auth::all(), 5));
    // The new administrator resolves reports; the old one no longer may.
    ok(report(&mut c, AnomalySeverity::Low, 1, 1));
    assert_eq!(c.resolve_anomaly(&Auth::all(), &ledger(), ADMIN, 1), Err(Error::Unauthorized));
    ok(c.resolve_anomaly(&Auth::all(), &ledger(), 5, 1));
}

#[test]
fn anomaly_before_initialize() {
    let mut c = AnomalyDetectorContract::new();
    assert_eq!(c.set_baseline(&Auth::all(), &ledger(), ORACLE, 1, 1, 1, 1), Err(Error::NotInitialized));
}
