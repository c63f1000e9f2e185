use pulsartrack::campaign_analytics::{CampaignAnalyticsContract, MAX_SNAPSHOTS};
use pulsartrack::common::{Auth, Error, Ledger};

fn ok<T>(r: Result<T, Error>) -> T {
    match r {
        Ok(v) => v,
        Err(e) => panic!("{}", e.message()),
    }
}

fn ledger() -> Ledger {
    Ledger { timestamp: 0, sequence: 0 }
}

const ADMIN: u64 = 1;
const ORACLE: u64 = 2;

fn setup() -> CampaignAnalyticsContract {
    let mut c = CampaignAnalyticsContract::new();
    ok(c.initialize(&Auth::all(), ADMIN, ORACLE));
    c
}

fn snap(c: &mut CampaignAnalyticsContract, campaign: u64, impressions: u64) {
    ok(c.record_snapshot(&Auth::all(), &ledger(), ORACLE, campaign, impressions, 0, 0, 0, 0));
}

#[test]
fn campaign_analytics_test_initialize() {
    setup();
}

#[test]
fn campaign_analytics_test_initialize_twice() {
    let mut c = CampaignAnalyticsContract::new();
    ok(c.initialize(&Auth::all(), 10, 11));
    assert_eq!(c.initialize(&Auth::all(), 10, 11), Err(Error::AlreadyInitialized));
}

#[test]
fn campaign_analytics_test_initialize_non_admin_fails() {
    let mut c = CampaignAnalyticsContract::new();
    assert_eq!(c.initialize(&Auth::none(), 10, 11), Err(Error::AuthRequired));
}

#[test]
fn test_record_snapshot() {
    let mut c = setup();
    ok(c.record_snapshot(&Auth::all(), &ledger(), ORACLE, 1, 1000, 50, 10, 5000, 800));
    let s = c.get_snapshot(1, 0).unwrap();
    assert_eq!(s.impressions, 1000);
    assert_eq!(s.clicks, 50);
}

#[test]
fn test_update_retention() {
    let mut c = setup();
    ok(c.update_retention(&Auth::all(), ORACLE, 1, 80, 60, 40, 120, 25));
    let r = c.get_retention(1).unwrap();
    assert_eq!(r.day_1_retention, 80);
    assert_eq!(r.day_7_retention, 60);
    assert_eq!(r.day_30_retention, 40);
}

#[test]
fn test_get_snapshot_nonexistent() {
    let c = setup();
    assert!(c.get_snapshot(999, 0).is_none());
}

#[test]
fn test_get_retention_nonexistent() {
    let c = setup();
    assert!(c.get_retention(999).is_none());
}

#[test]
fn test_snapshot_count() {
    let mut c = setup();
    ok(c.record_snapshot(&Auth::all(), &ledger(), ORACLE, 1, 1000, 50, 10, 5000, 800));
    assert_eq!(c.get_snapshot_count(1), 1);
}

#[test]
fn test_ring_buffer_overwrites_oldest() {
    let mut c = setup();
    let max = c.get_max_snapshots();
    for i in 0..max {
        snap(&mut c, 1, i as u64);
    }
    let first = c.get_snapshot(1, 0).unwrap();
    assert_eq!(first.impressions, 0);
    snap(&mut c, 1, 9999);
    let overwritten = c.get_snapshot(1, 0).unwrap();
    assert_eq!(overwritten.impressions, 9999);
    assert_eq!(c.get_snapshot_count(1), max + 1);
    assert_eq!(c.get_stored_snapshot_count(1), max);
}

#[test]
fn test_ring_buffer_multiple_wraps() {
    let mut c = setup();
    let max = c.get_max_snapshots();
    let total = max * 2 + max / 2;
    for i in 0..total {
        snap(&mut c, 1, i as u64);
    }
    assert_eq!(c.get_snapshot_count(1), total);
    assert_eq!(c.get_stored_snapshot_count(1), max);
    let last_index = (total - 1) % max;
    let last = c.get_snapshot(1, last_index).unwrap();
    assert_eq!(last.impressions, (total - 1) as u64);
}

#[test]
fn test_stored_snapshot_count_below_max() {
    let mut c = setup();
    for i in 0..5u32 {
        snap(&mut c, 1, i as u64);
    }
    assert_eq!(c.get_snapshot_count(1), 5);
    assert_eq!(c.get_stored_snapshot_count(1), 5);
}

#[test]
fn test_ring_buffer_independent_campaigns() {
    let mut c = setup();
    for i in 0..3u32 {
        snap(&mut c, 1, i as u64 * 100);
        snap(&mut c, 2, i as u64 * 200);
    }
    assert_eq!(c.get_snapshot_count(1), 3);
    assert_eq!(c.get_snapshot_count(2), 3);
    assert_eq!(c.get_snapshot(1, 0).unwrap().impressions, 0);
    assert_eq!(c.get_snapshot(2, 0).unwrap().impressions, 0);
    assert_eq!(c.get_snapshot(1, 2).unwrap().impressions, 200);
    assert_eq!(c.get_snapshot(2, 2).unwrap().impressions, 400);
}

#[test]
fn test_get_max_snapshots() {
    let c = setup();
    assert_eq!(c.get_max_snapshots(), MAX_SNAPSHOTS);
}

#[test]
fn analytics_snapshot_records_ledger() {
    let mut c = setup();
    let at = Ledger { timestamp: 1234, sequence: 56 };
    ok(c.record_snapshot(&Auth::all(), &at, ORACLE, 7, 1, 2, 3, -4, 5));
    let s = c.get_snapshot(7, 0).unwrap();
    assert_eq!(s.timestamp, 1234);
    assert_eq!(s.ledger_sequence, 56);
    assert_eq!(s.spend, -4);
    assert_eq!(s.reach, 5);
}

#[test]
fn analytics_only_oracle_writes() {
    let mut c = setup();
    assert_eq!(
        c.record_snapshot(&Auth::all(), &ledger(), ADMIN, 1, 1, 1, 1, 1, 1),
        Err(Error::Unauthorized)
    );
    assert_eq!(c.update_funnel(&Auth::all(), ADMIN, 1, 1, 1, 1, 1, 1, 1), Err(Error::Unauthorized));
    assert_eq!(c.get_snapshot_count(1), 0);
    assert!(c.get_funnel(1).is_none());
}

#[test]
fn analytics_funnel_round_trip() {
    let mut c = setup();
    ok(c.update_funnel(&Auth::all(), ORACLE, 3, 1000, 300, 100, 20, 5, 777));
    let f = c.get_funnel(3).unwrap();
    assert_eq!(f.impressions, 1000);
    assert_eq!(f.engagements, 300);
    assert_eq!(f.sign_ups, 20);
    assert_eq!(f.conversion_value, 777);
}

#[test]
fn analytics_uninitialized_refuses() {
    let mut c = CampaignAnalyticsContract::new();
    assert_eq!(
        c.record_snapshot(&Auth::all(), &ledger(), ORACLE, 1, 1, 1, 1, 1, 1),
        Err(Error::NotInitialized)
    );
}
