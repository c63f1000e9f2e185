use pulsartrack::common::{Auth, Error, Ledger};
use pulsartrack::targeting_engine::{TargetingEngineContract, TargetingParams};

fn ok<T>(r: Result<T, Error>) -> T {
    match r {
        Ok(v) => v,
        Err(e) => panic!("{}", e.message()),
    }
}

fn ledger() -> Ledger {
    Ledger { timestamp: 42, sequence: 1 }
}

const ADMIN: u64 = 1;
const ORACLE: u64 = 2;
const PUB1: u64 = 3;
const ADVERTISER: u64 = 4;

fn s(v: &str) -> String {
    v.to_string()
}

fn default_params() -> TargetingParams {
    TargetingParams {
        geographic_targets: s("US,EU"),
        interest_segments: s("tech,news"),
        excluded_segments: s(""),
        min_age: 18,
        max_age: 65,
        device_types: s("mobile,desktop"),
        languages: s("en"),
        min_reputation: 50,
        exclude_fraud: true,
        require_kyc: false,
        max_cpm: 10_000,
    }
}

fn setup() -> TargetingEngineContract {
    let mut c = TargetingEngineContract::new();
    ok(c.initialize(&Auth::all(), ADMIN));
    c
}

#[test]
fn targeting_engine_test_initialize() {
    setup();
}

#[test]
fn targeting_engine_test_initialize_twice() {
    let mut c = TargetingEngineContract::new();
    ok(c.initialize(&Auth::all(), ADMIN));
    assert_eq!(c.initialize(&Auth::all(), ADMIN), Err(Error::AlreadyInitialized));
}

#[test]
fn targeting_engine_test_initialize_non_admin_fails() {
    let mut c = TargetingEngineContract::new();
    assert_eq!(c.initialize(&Auth::none(), ADMIN), Err(Error::AuthRequired));
}

#[test]
fn targeting_engine_test_add_oracle() {
    let mut c = setup();
    ok(c.add_oracle(&Auth::all(), ADMIN, ORACLE));
}

#[test]
fn test_set_targeting() {
    let mut c = setup();
    ok(c.set_targeting(&Auth::all(), &ledger(), ADVERTISER, 1, default_params()));
    let config = c.get_targeting(1).unwrap();
    assert_eq!(config.geographic_targets, s("US,EU"));
}

#[test]
fn test_compute_score() {
    let mut c = setup();
    ok(c.add_oracle(&Auth::all(), ADMIN, ORACLE));
    ok(c.set_targeting(&Auth::all(), &ledger(), ADVERTISER, 1, default_params()));
    ok(c.compute_score(&Auth::all(), &ledger(), ORACLE, 1, PUB1, 750, s("geo_match,interest_match")));
    let score = c.get_targeting_score(1, PUB1).unwrap();
    assert_eq!(score.score, 750);
}

#[test]
fn test_is_publisher_targeted() {
    let mut c = setup();
    ok(c.add_oracle(&Auth::all(), ADMIN, ORACLE));
    ok(c.set_targeting(&Auth::all(), &ledger(), ADVERTISER, 1, default_params()));
    ok(c.compute_score(&Auth::all(), &ledger(), ORACLE, 1, PUB1, 750, s("match")));
    assert!(c.is_publisher_targeted(1, PUB1, 600));
    assert!(!c.is_publisher_targeted(1, PUB1, 800));
}

#[test]
fn test_get_targeting_nonexistent() {
    let c = setup();
    assert!(c.get_targeting(999).is_none());
}

#[test]
fn targeting_refusals_and_fields() {
    let mut c = setup();
    let mut bad = default_params();
    bad.min_age = 70;
    assert_eq!(c.set_targeting(&Auth::all(), &ledger(), ADVERTISER, 1, bad), Err(Error::InvalidAgeRange));
    assert!(c.get_targeting(1).is_none());
    assert_eq!(c.compute_score(&Auth::all(), &ledger(), ORACLE, 1, PUB1, 1, s("x")), Err(Error::Unauthorized));
    assert_eq!(c.add_oracle(&Auth::all(), 9, ORACLE), Err(Error::Unauthorized));
    ok(c.add_oracle(&Auth::all(), ADMIN, ORACLE));
    ok(c.remove_oracle(&Auth::all(), ADMIN, ORACLE));
    assert_eq!(c.compute_score(&Auth::all(), &ledger(), ORACLE, 1, PUB1, 1, s("x")), Err(Error::Unauthorized));
    ok(c.set_targeting(&Auth::all(), &ledger(), ADVERTISER, 1, default_params()));
    let config = c.get_targeting(1).unwrap();
    assert_eq!(config.advertiser, ADVERTISER);
    assert_eq!(config.min_reputation_score, 50);
    assert_eq!(config.operating_systems, s(""));
    assert_eq!(config.created_at, 42);
    assert!(!c.is_publisher_targeted(1, PUB1, 0));
}
