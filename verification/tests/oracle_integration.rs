use pulsartrack::common::{Auth, Error, Ledger};
use pulsartrack::oracle_integration::OracleIntegrationContract;

fn ok<T>(r: Result<T, Error>) -> T {
    match r {
        Ok(v) => v,
        Err(e) => panic!("{}", e.message()),
    }
}

fn ledger() -> Ledger {
    Ledger { timestamp: 0, sequence: 0 }
}

const ADMIN: u64 = 1;
const ORACLE: u64 = 2;

fn setup() -> OracleIntegrationContract {
    let mut c = OracleIntegrationContract::new();
    ok(c.initialize(&Auth::all(), ADMIN));
    c
}

#[test]
fn oracle_integration_test_initialize() {
    setup();
}

#[test]
fn oracle_integration_test_initialize_twice() {
    let mut c = setup();
    assert_eq!(c.initialize(&Auth::all(), ADMIN), Err(Error::AlreadyInitialized));
}

#[test]
fn oracle_integration_test_initialize_non_admin_fails() {
    let mut c = OracleIntegrationContract::new();
    assert_eq!(c.initialize(&Auth::none(), ADMIN), Err(Error::AuthRequired));
}

#[test]
fn test_add_oracle() {
    let mut c = setup();
    ok(c.add_oracle(&Auth::all(), ADMIN, ORACLE));
    assert!(c.is_oracle_authorized(ORACLE));
}

#[test]
fn test_remove_oracle() {
    let mut c = setup();
    ok(c.add_oracle(&Auth::all(), ADMIN, ORACLE));
    ok(c.remove_oracle(&Auth::all(), ADMIN, ORACLE));
    assert!(!c.is_oracle_authorized(ORACLE));
}

#[test]
#[should_panic(expected = "unauthorized")]
fn test_add_oracle_unauthorized() {
    let mut c = setup();
    ok(c.add_oracle(&Auth::all(), 50, 51));
}

#[test]
fn test_update_price() {
    let mut c = setup();
    ok(c.add_oracle(&Auth::all(), ADMIN, ORACLE));
    ok(c.update_price(&Auth::all(), &ledger(), ORACLE, "XLM".to_string(), 1_500_000, 95, "external".to_string()));
    let p = c.get_price("XLM").unwrap();
    assert_eq!(p.price_usd, 1_500_000);
}

#[test]
fn test_update_performance() {
    let mut c = setup();
    ok(c.add_oracle(&Auth::all(), ADMIN, ORACLE));
    ok(c.update_performance(&Auth::all(), &ledger(), ORACLE, 1, 1000, 50, 5, 10));
    let perf = c.get_performance(1).unwrap();
    assert_eq!(perf.impressions, 1000);
}

#[test]
fn test_get_price_nonexistent() {
    let c = setup();
    assert!(c.get_price("BTC").is_none());
}

#[test]
fn test_is_oracle_authorized_false() {
    let c = setup();
    assert!(!c.is_oracle_authorized(77));
}

#[test]
fn oracle_unauthorized_writer_refused() {
    let mut c = setup();
    assert_eq!(
        c.update_price(&Auth::all(), &ledger(), ORACLE, "XLM".to_string(), 1, 1, "x".to_string()),
        Err(Error::NotAuthorizedOracle)
    );
    ok(c.add_oracle(&Auth::all(), ADMIN, ORACLE));
    ok(c.remove_oracle(&Auth::all(), ADMIN, ORACLE));
    assert_eq!(c.update_performance(&Auth::all(), &ledger(), ORACLE, 1, 1, 1, 1, 1), Err(Error::NotAuthorizedOracle));
}

#[test]
fn oracle_price_overwrite_and_timestamp() {
    let mut c = setup();
    ok(c.add_oracle(&Auth::all(), ADMIN, ORACLE));
    ok(c.update_price(&Auth::all(), &ledger(), ORACLE, "XLM".to_string(), 1, 50, "a".to_string()));
    ok(c.update_price(&Auth::all(), &Ledger { timestamp: 9, sequence: 1 }, ORACLE, "XLM".to_string(), 2, 60, "b".to_string()));
    let p = c.get_price("XLM").unwrap();
    assert_eq!(p.price_usd, 2);
    assert_eq!(p.confidence, 60);
    assert_eq!(p.timestamp, 9);
    assert_eq!(p.source, "b");
    assert_eq!(p.asset, "XLM");
}
