use pulsartrack::common::{Auth, Error, Ledger, Party, Transfer};
use pulsartrack::subscription_manager::{
    plan_period_secs, prorated_credit, tier_rank, SubscriptionManagerContract, SubscriptionTier,
};

fn ok<T>(r: Result<T, Error>) -> T {
    match r {
        Ok(v) => v,
        Err(e) => panic!("{}", e.message()),
    }
}

fn at(timestamp: u64) -> Ledger {
    Ledger { timestamp, sequence: 0 }
}

const ADMIN: u64 = 1;
const TOKEN: u64 = 2;
const TREASURY: u64 = 3;
const SUB: u64 = 4;
const MONTH: u64 = 2_592_000;

fn setup() -> SubscriptionManagerContract {
    let mut c = SubscriptionManagerContract::new();
    ok(c.initialize(&Auth::all(), ADMIN, TOKEN, TREASURY));
    c
}

fn pay(amount: i128) -> Vec<Transfer> {
    vec![Transfer { token: TOKEN, from: Party::Account(SUB), to: Party::Account(TREASURY), amount }]
}

#[test]
fn subscription_tier_rank_orders_tiers() {
    assert_eq!(tier_rank(&SubscriptionTier::Starter), 0);
    assert_eq!(tier_rank(&SubscriptionTier::Growth), 1);
    assert_eq!(tier_rank(&SubscriptionTier::Business), 2);
    assert_eq!(tier_rank(&SubscriptionTier::Enterprise), 3);
}

#[test]
fn subscription_periods() {
    assert_eq!(plan_period_secs(false), 2_592_000);
    assert_eq!(plan_period_secs(true), 31_536_000);
}

#[test]
fn subscription_prorated_credit_values() {
    assert_eq!(prorated_credit(1000, 0, 100, 25), 750);
    assert_eq!(prorated_credit(1000, 0, 100, 100), 0);
    assert_eq!(prorated_credit(1000, 0, 100, 200), 0);
    assert_eq!(prorated_credit(1000, 50, 50, 10), 0);
    assert_eq!(prorated_credit(10, 0, 3, 1), 6);
    assert_eq!(prorated_credit(-10, 0, 3, 1), -6);
}

#[test]
fn subscription_initialize_plans() {
    let c = setup();
    let p = c.get_plan(SubscriptionTier::Growth).unwrap();
    assert_eq!(p.price_monthly, 299_000_000);
    assert_eq!(p.max_campaigns, 25);
    assert!(p.analytics_enabled && !p.api_access);
    assert_eq!(c.get_plan(SubscriptionTier::Enterprise).unwrap().price_annual, 19_990_000_000);
    let mut c2 = setup();
    assert_eq!(c2.initialize(&Auth::all(), ADMIN, TOKEN, TREASURY), Err(Error::AlreadyInitialized));
}

#[test]
fn subscription_subscribe_charges_and_blocks_second() {
    let mut c = setup();
    let t = ok(c.subscribe(&Auth::all(), &at(10), SUB, SubscriptionTier::Starter, false, true));
    assert_eq!(t, pay(99_000_000));
    let s = c.get_subscription(SUB).unwrap();
    assert_eq!(s.expires_at, 10 + MONTH);
    assert_eq!(s.amount_paid, 99_000_000);
    assert!(c.is_active(&at(10), SUB));
    assert!(!c.is_active(&at(10 + MONTH), SUB));
    assert_eq!(
        c.subscribe(&Auth::all(), &at(20), SUB, SubscriptionTier::Growth, false, true),
        Err(Error::AlreadyActive)
    );
    ok(c.subscribe(&Auth::all(), &at(10 + MONTH), SUB, SubscriptionTier::Growth, false, true));
    assert_eq!(c.get_subscription(SUB).unwrap().tier, SubscriptionTier::Growth);
}

#[test]
fn subscription_upgrade_charges_net_of_credit() {
    let mut c = setup();
    ok(c.subscribe(&Auth::all(), &at(0), SUB, SubscriptionTier::Starter, false, true));
    ok(c.record_campaign_used(SUB));
    ok(c.record_impression(SUB, 40));
    // Half the month left: credit is half of 99_000_000.
    let t = ok(c.change_tier(&Auth::all(), &at(MONTH / 2), SUB, SubscriptionTier::Growth, false, false));
    assert_eq!(t, pay(299_000_000 - 49_500_000));
    let s = c.get_subscription(SUB).unwrap();
    assert_eq!(s.tier, SubscriptionTier::Growth);
    assert_eq!(s.amount_paid, 299_000_000);
    assert_eq!(s.started_at, MONTH / 2);
    assert_eq!(s.expires_at, MONTH / 2 + MONTH);
    assert_eq!(s.campaigns_used, 1);
    assert_eq!(s.impressions_used, 40);
    assert!(!s.auto_renew);
}

#[test]
fn subscription_upgrade_refusals() {
    let mut c = setup();
    assert_eq!(
        c.change_tier(&Auth::all(), &at(0), SUB, SubscriptionTier::Growth, false, true),
        Err(Error::NoActiveSubscription)
    );
    ok(c.subscribe(&Auth::all(), &at(0), SUB, SubscriptionTier::Business, false, true));
    assert_eq!(
        c.change_tier(&Auth::all(), &at(1), SUB, SubscriptionTier::Growth, false, true),
        Err(Error::DowngradeNotAllowed)
    );
    assert_eq!(
        c.change_tier(&Auth::all(), &at(1), SUB, SubscriptionTier::Business, false, true),
        Err(Error::SameTier)
    );
    assert_eq!(c.get_subscription(SUB).unwrap().tier, SubscriptionTier::Business);
}

#[test]
fn subscription_renew_stacks_remaining_time() {
    let mut c = setup();
    ok(c.subscribe(&Auth::all(), &at(0), SUB, SubscriptionTier::Starter, false, true));
    let t = ok(c.renew(&Auth::all(), &at(100), SUB, false, true));
    assert_eq!(t, pay(99_000_000));
    let s = c.get_subscription(SUB).unwrap();
    assert_eq!(s.expires_at, 2 * MONTH);
    assert_eq!(s.started_at, 0);
    // After expiry the new period starts from now.
    ok(c.renew(&Auth::all(), &at(5 * MONTH), SUB, false, true));
    assert_eq!(c.get_subscription(SUB).unwrap().expires_at, 6 * MONTH);
    assert_eq!(c.renew(&Auth::all(), &at(0), 77, false, true), Err(Error::NoSubscriptionFound));
}

#[test]
fn subscription_cancel_keeps_access() {
    let mut c = setup();
    ok(c.subscribe(&Auth::all(), &at(0), SUB, SubscriptionTier::Starter, true, true));
    ok(c.cancel(&Auth::all(), SUB));
    let s = c.get_subscription(SUB).unwrap();
    assert!(!s.auto_renew);
    assert!(c.is_active(&at(1), SUB));
    assert_eq!(c.cancel(&Auth::all(), 77), Err(Error::SubscriptionNotFound));
    assert_eq!(c.record_campaign_used(77), Err(Error::SubscriptionNotFound));
}
