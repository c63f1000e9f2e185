use pulsartrack::common::{Auth, Error, Ledger};
use pulsartrack::performance_oracle::PerformanceOracleContract;

fn ok<T>(r: Result<T, Error>) -> T {
    match r {
        Ok(v) => v,
        Err(e) => panic!("{}", e.message()),
    }
}

fn ledger() -> Ledger {
    Ledger { timestamp: 100, sequence: 7 }
}

const ADMIN: u64 = 1;
const ATT1: u64 = 11;
const ATT2: u64 = 12;
const ATT3: u64 = 13;
const HASH: [u8; 32] = [1u8; 32];

fn setup() -> PerformanceOracleContract {
    let mut c = PerformanceOracleContract::new();
    ok(c.initialize(&Auth::all(), ADMIN, 2));
    c
}

fn submit(c: &mut PerformanceOracleContract, att: u64, imp: u64, clicks: u64, fraud: u32, quality: u32) {
    ok(c.submit_attestation(&Auth::all(), &ledger(), att, 1, imp, clicks, fraud, quality, HASH));
}

#[test]
fn performance_oracle_test_initialize() {
    setup();
}

#[test]
fn performance_oracle_test_initialize_twice() {
    let mut c = PerformanceOracleContract::new();
    ok(c.initialize(&Auth::all(), ADMIN, 2));
    assert_eq!(c.initialize(&Auth::all(), ADMIN, 2), Err(Error::AlreadyInitialized));
}

#[test]
fn performance_oracle_test_initialize_non_admin_fails() {
    let mut c = PerformanceOracleContract::new();
    assert_eq!(c.initialize(&Auth::none(), ADMIN, 2), Err(Error::AuthRequired));
}

#[test]
fn test_authorize_attester() {
    let mut c = setup();
    ok(c.authorize_attester(&Auth::all(), ADMIN, ATT1));
}

#[test]
fn test_submit_attestation() {
    let mut c = setup();
    ok(c.authorize_attester(&Auth::all(), ADMIN, ATT1));
    ok(c.submit_attestation(&Auth::all(), &ledger(), ATT1, 1, 1000, 50, 5, 90, HASH));
    let a = c.get_attestation(1, ATT1).unwrap();
    assert_eq!(a.impressions_verified, 1000);
}

#[test]
fn test_get_attestation_count() {
    let mut c = setup();
    ok(c.authorize_attester(&Auth::all(), ADMIN, ATT1));
    ok(c.submit_attestation(&Auth::all(), &ledger(), ATT1, 1, 1000, 50, 5, 90, HASH));
    assert_eq!(c.get_attestation_count(1), 1);
}

#[test]
fn test_get_consensus_nonexistent() {
    let c = setup();
    assert!(c.get_consensus(999).is_none());
}

#[test]
fn test_consensus_with_actual_averaging() {
    let mut c = setup();
    ok(c.authorize_attester(&Auth::all(), ADMIN, ATT1));
    ok(c.authorize_attester(&Auth::all(), ADMIN, ATT2));
    ok(c.authorize_attester(&Auth::all(), ADMIN, ATT3));
    submit(&mut c, ATT1, 1000, 100, 1000, 80);
    assert!(c.get_consensus(1).is_none());
    submit(&mut c, ATT2, 2000, 200, 2000, 90);
    let consensus_opt = c.get_consensus(1);
    assert!(consensus_opt.is_some());
    let consensus = consensus_opt.unwrap();
    assert_eq!(consensus.avg_impressions, 1500);
    assert_eq!(consensus.avg_clicks, 150);
    assert_eq!(consensus.avg_fraud_rate, 1500);
    assert_eq!(consensus.avg_quality_score, 85);
    assert_eq!(consensus.total_attesters, 2);
    assert!(consensus.consensus_reached);
}

#[test]
fn test_consensus_with_three_attesters() {
    let mut c = setup();
    ok(c.authorize_attester(&Auth::all(), ADMIN, ATT1));
    ok(c.authorize_attester(&Auth::all(), ADMIN, ATT2));
    ok(c.authorize_attester(&Auth::all(), ADMIN, ATT3));
    submit(&mut c, ATT1, 900, 90, 500, 70);
    submit(&mut c, ATT2, 1200, 120, 1000, 80);
    submit(&mut c, ATT3, 1500, 150, 1500, 90);
    let consensus = c.get_consensus(1).unwrap();
    assert_eq!(consensus.avg_impressions, 1200);
    assert_eq!(consensus.avg_clicks, 120);
    assert_eq!(consensus.avg_fraud_rate, 1000);
    assert_eq!(consensus.avg_quality_score, 80);
    assert_eq!(consensus.total_attesters, 3);
}

#[test]
fn test_no_consensus_with_insufficient_attesters() {
    let mut c = setup();
    ok(c.authorize_attester(&Auth::all(), ADMIN, ATT1));
    submit(&mut c, ATT1, 1000, 100, 500, 80);
    assert!(c.get_consensus(1).is_none());
}

#[test]
fn test_last_attester_does_not_override_consensus() {
    let mut c = setup();
    ok(c.authorize_attester(&Auth::all(), ADMIN, ATT1));
    ok(c.authorize_attester(&Auth::all(), ADMIN, ATT2));
    ok(c.authorize_attester(&Auth::all(), ADMIN, ATT3));
    submit(&mut c, ATT1, 1000, 100, 500, 80);
    submit(&mut c, ATT2, 1100, 110, 600, 85);
    submit(&mut c, ATT3, 9000, 900, 5000, 50);
    let consensus = c.get_consensus(1).unwrap();
    assert_eq!(consensus.avg_impressions, 3700);
    assert_eq!(consensus.avg_clicks, 370);
    assert_eq!(consensus.total_attesters, 3);
}

#[test]
fn performance_oracle_refusals() {
    let mut c = setup();
    assert_eq!(
        c.submit_attestation(&Auth::all(), &ledger(), ATT1, 1, 1, 1, 1, 1, HASH),
        Err(Error::NotAuthorizedAttester)
    );
    assert_eq!(c.authorize_attester(&Auth::all(), 99, ATT1), Err(Error::Unauthorized));
    ok(c.authorize_attester(&Auth::all(), ADMIN, ATT1));
    assert_eq!(
        c.submit_attestation(&Auth::none(), &ledger(), ATT1, 1, 1, 1, 1, 1, HASH),
        Err(Error::AuthRequired)
    );
    submit(&mut c, ATT1, 10, 1, 1, 1);
    assert_eq!(
        c.submit_attestation(&Auth::all(), &ledger(), ATT1, 1, 20, 2, 2, 2, HASH),
        Err(Error::AlreadyAttested)
    );
    assert_eq!(c.get_attestation_count(1), 1);
    assert_eq!(c.get_attestation(1, ATT1).unwrap().impressions_verified, 10);
}

#[test]
fn performance_oracle_average_truncates_and_stamps_time() {
    let mut c = setup();
    ok(c.authorize_attester(&Auth::all(), ADMIN, ATT1));
    ok(c.authorize_attester(&Auth::all(), ADMIN, ATT2));
    submit(&mut c, ATT1, 1, 1, 1, 1);
    submit(&mut c, ATT2, 2, 2, 2, 2);
    let consensus = c.get_consensus(1).unwrap();
    assert_eq!(consensus.avg_impressions, 1);
    assert_eq!(consensus.avg_quality_score, 1);
    assert_eq!(consensus.last_updated, 100);
    assert_eq!(consensus.campaign_id, 1);
    let a = c.get_attestation(1, ATT2).unwrap();
    assert_eq!(a.attested_at, 100);
    assert_eq!(a.ledger_sequence, 7);
}
