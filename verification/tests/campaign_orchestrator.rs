use pulsartrack::campaign_orchestrator::{CampaignOrchestratorContract, CampaignStatus};
use pulsartrack::common::{Auth, Error, Ledger, Party, Transfer};

fn ok<T>(r: Result<T, Error>) -> T {
    match r {
        Ok(v) => v,
        Err(e) => panic!("{}", e.message()),
    }
}

fn at(timestamp: u64, sequence: u32) -> Ledger {
    Ledger { timestamp, sequence }
}

const ADMIN: u64 = 1;
const TOKEN: u64 = 2;
const ADV: u64 = 3;
const PUBLISHER: u64 = 4;

fn setup() -> CampaignOrchestratorContract {
    let mut c = CampaignOrchestratorContract::new();
    ok(c.initialize(&Auth::all(), ADMIN, TOKEN));
    ok(c.verify_publisher(&Auth::all(), &at(0, 1), ADMIN, PUBLISHER, 80));
    c
}

fn campaign(c: &mut CampaignOrchestratorContract, target: u64, daily: u64, refundable: bool) -> u64 {
    let (id, _) = ok(c.create_campaign(&Auth::all(), &at(0, 10), ADV, 1, 2_000_000, 1_000, 500, target, daily, refundable));
    id
}

#[test]
fn orchestrator_create_takes_budget_plus_fee() {
    let mut c = setup();
    let (id, t) = ok(c.create_campaign(&Auth::all(), &at(5, 10), ADV, 1, 2_000_000, 1_000, 500, 10, 5, true));
    assert_eq!(id, 1);
    assert_eq!(t, vec![Transfer { token: TOKEN, from: Party::Account(ADV), to: Party::Contract, amount: 2_040_000 }]);
    let camp = c.get_campaign(id).unwrap();
    assert_eq!(camp.platform_fee, 40_000);
    assert_eq!(camp.remaining_budget, 2_000_000);
    assert_eq!(camp.end_ledger, 510);
    assert_eq!(camp.status, CampaignStatus::Active);
    let stats = c.get_advertiser_stats(ADV).unwrap();
    assert_eq!(stats.total_campaigns, 1);
    assert_eq!(stats.total_spent, 2_000_000);
    assert_eq!(stats.last_campaign_id, 1);
    assert_eq!(c.get_campaign_count(), 1);
}

#[test]
fn orchestrator_create_refusals() {
    let mut c = setup();
    assert_eq!(
        c.create_campaign(&Auth::all(), &at(0, 0), ADV, 9, 2_000_000, 1, 500, 1, 1, true),
        Err(Error::CampaignTypeNotFound)
    );
    assert_eq!(
        c.create_campaign(&Auth::all(), &at(0, 0), ADV, 1, 999_999, 1, 500, 1, 1, true),
        Err(Error::BudgetTooLow)
    );
    assert_eq!(
        c.create_campaign(&Auth::all(), &at(0, 0), ADV, 1, 2_000_000, 1, 99, 1, 1, true),
        Err(Error::InvalidDuration)
    );
    assert_eq!(
        c.create_campaign(&Auth::all(), &at(0, 0), ADV, 1, 2_000_000, 1, 10_001, 1, 1, true),
        Err(Error::InvalidDuration)
    );
    assert_eq!(c.get_campaign_count(), 0);
}

#[test]
fn orchestrator_record_view_pays_publisher_and_completes() {
    let mut c = setup();
    let id = campaign(&mut c, 2, 10, true);
    let t = ok(c.record_view(&Auth::all(), &at(100, 20), id, PUBLISHER));
    assert_eq!(t, vec![Transfer { token: TOKEN, from: Party::Contract, to: Party::Account(PUBLISHER), amount: 1_000 }]);
    let m = ok(c.get_campaign_metrics(id)).unwrap();
    assert_eq!(m.total_spent, 1_000);
    assert_eq!(m.completion_rate, 50);
    ok(c.record_view(&Auth::all(), &at(101, 20), id, PUBLISHER));
    let camp = c.get_campaign(id).unwrap();
    assert_eq!(camp.status, CampaignStatus::Completed);
    assert_eq!(camp.current_views, 2);
    assert_eq!(camp.remaining_budget, 1_998_000);
    assert_eq!(c.get_publisher_metrics(PUBLISHER).unwrap().total_earnings, 2_000);
    assert_eq!(c.record_view(&Auth::all(), &at(102, 20), id, PUBLISHER), Err(Error::CampaignNotActive));
}

#[test]
fn orchestrator_record_view_refusals() {
    let mut c = setup();
    let id = campaign(&mut c, 100, 1, true);
    assert_eq!(c.record_view(&Auth::all(), &at(0, 20), id, 99), Err(Error::PublisherNotVerified));
    assert_eq!(c.record_view(&Auth::all(), &at(0, 20), 77, PUBLISHER), Err(Error::CampaignNotFound));
    assert_eq!(c.record_view(&Auth::all(), &at(0, 511), id, PUBLISHER), Err(Error::CampaignExpired));
    ok(c.record_view(&Auth::all(), &at(0, 20), id, PUBLISHER));
    assert_eq!(c.record_view(&Auth::all(), &at(5, 20), id, PUBLISHER), Err(Error::DailyViewLimitReached));
    // A new day resets the daily count.
    ok(c.record_view(&Auth::all(), &at(86_400, 20), id, PUBLISHER));
    ok(c.pause_campaign(&Auth::all(), &at(1, 20), ADV, id));
    assert_eq!(c.record_view(&Auth::all(), &at(200_000, 20), id, PUBLISHER), Err(Error::CampaignNotActive));
    ok(c.resume_campaign(&Auth::all(), &at(1, 20), ADV, id));
    ok(c.record_view(&Auth::all(), &at(200_000, 20), id, PUBLISHER));
}

#[test]
fn orchestrator_cancel_refunds_rest() {
    let mut c = setup();
    let id = campaign(&mut c, 100, 10, true);
    ok(c.record_view(&Auth::all(), &at(0, 20), id, PUBLISHER));
    assert_eq!(c.cancel_campaign(&Auth::all(), &at(0, 20), PUBLISHER, id), Err(Error::Unauthorized));
    let t = ok(c.cancel_campaign(&Auth::all(), &at(0, 20), ADV, id));
    assert_eq!(
        t,
        vec![Transfer { token: TOKEN, from: Party::Contract, to: Party::Account(ADV), amount: 1_999_000 }]
    );
    let camp = c.get_campaign(id).unwrap();
    assert_eq!(camp.status, CampaignStatus::Cancelled);
    assert_eq!(camp.remaining_budget, 0);
    let id2 = campaign(&mut c, 100, 10, false);
    assert_eq!(c.cancel_campaign(&Auth::all(), &at(0, 20), ADV, id2), Err(Error::CampaignNotRefundable));
}

#[test]
fn orchestrator_platform_fee() {
    let mut c = setup();
    assert_eq!(c.set_platform_fee(&Auth::all(), ADMIN, 11), Err(Error::FeeTooHigh));
    assert_eq!(c.set_platform_fee(&Auth::all(), ADV, 5), Err(Error::Unauthorized));
    ok(c.set_platform_fee(&Auth::all(), ADMIN, 10));
    let (_, t) = ok(c.create_campaign(&Auth::all(), &at(0, 0), ADV, 1, 1_000_005, 1, 100, 1, 1, true));
    assert_eq!(t[0].amount, 1_100_005);
    assert!(c.get_campaign_metrics(42).unwrap().is_none());
}

#[test]
fn orchestrator_campaign_ids_count_up() {
    let mut c = setup();
    let a = campaign(&mut c, 10, 10, true);
    let b = campaign(&mut c, 10, 10, true);
    assert_eq!((a, b), (1, 2));
    assert_eq!(c.get_campaign_count(), 2);
    assert!(c.get_campaign(3).is_none());
    assert_eq!(c.get_campaign(1).unwrap().platform_fee + c.get_campaign(2).unwrap().platform_fee, 80_000);
}
