use pulsartrack::campaign_lifecycle::{CampaignLifecycleContract, LifecycleState};
use pulsartrack::campaign_lifecycle::LifecycleState::{
    Active, Archived, Cancelled, Completed, Draft, Expired, Paused, PendingReview, Rejected,
};
use pulsartrack::common::{Auth, Error, Ledger};

fn ok<T>(r: Result<T, Error>) -> T {
    match r {
        Ok(v) => v,
        Err(e) => panic!("{}", e.message()),
    }
}

fn at(timestamp: u64) -> Ledger {
    Ledger { timestamp, sequence: 0 }
}

const ADMIN: u64 = 1;
const ADV: u64 = 2;
const OTHER: u64 = 3;

fn setup() -> CampaignLifecycleContract {
    let mut c = CampaignLifecycleContract::new();
    ok(c.initialize(&Auth::all(), ADMIN));
    ok(c.register_campaign(&Auth::all(), &at(1), ADV, 7, 1000));
    c
}

fn go(c: &mut CampaignLifecycleContract, actor: u64, to: LifecycleState, now: u64) -> Result<(), Error> {
    c.transition(&Auth::all(), &at(now), actor, 7, to, "r".to_string())
}

#[test]
fn lifecycle_validate_transition_table() {
    let all = [Draft, PendingReview, Active, Paused, Completed, Cancelled, Expired, Archived, Rejected];
    let allowed = [
        (Draft, PendingReview),
        (Draft, Cancelled),
        (PendingReview, Active),
        (PendingReview, Rejected),
        (PendingReview, Cancelled),
        (Active, Paused),
        (Active, Completed),
        (Active, Cancelled),
        (Active, Expired),
        (Paused, Active),
        (Paused, Cancelled),
    ];
    for from in all.iter() {
        for to in all.iter() {
            let expect_ok = allowed.iter().any(|(a, b)| a == from && b == to);
            let r = CampaignLifecycleContract::_validate_transition(from, to);
            if expect_ok {
                assert_eq!(r, Ok(()));
            } else {
                assert_eq!(r, Err(Error::InvalidStateTransition));
            }
        }
    }
}

#[test]
fn lifecycle_register_as_draft() {
    let c = setup();
    let l = c.get_lifecycle(7).unwrap();
    assert_eq!(l.state, LifecycleState::Draft);
    assert_eq!(l.advertiser, ADV);
    assert_eq!(l.created_at, 1);
    assert_eq!(l.original_end_ledger, 1000);
    assert_eq!(c.get_transition_count(7), 0);
    assert!(c.get_lifecycle(8).is_none());
}

#[test]
fn lifecycle_full_path_records_log() {
    let mut c = setup();
    ok(go(&mut c, ADV, LifecycleState::PendingReview, 2));
    ok(go(&mut c, ADMIN, LifecycleState::Active, 3));
    ok(go(&mut c, ADV, LifecycleState::Paused, 4));
    ok(go(&mut c, ADV, LifecycleState::Active, 5));
    ok(go(&mut c, ADV, LifecycleState::Completed, 6));
    let l = c.get_lifecycle(7).unwrap();
    assert_eq!(l.state, LifecycleState::Completed);
    assert_eq!(l.activated_at, Some(5));
    assert_eq!(l.paused_at, Some(4));
    assert_eq!(l.completed_at, Some(6));
    assert_eq!(l.pause_count, 1);
    assert_eq!(c.get_transition_count(7), 5);
    let t = c.get_transition(7, 1).unwrap();
    assert_eq!(t.from_state, LifecycleState::PendingReview);
    assert_eq!(t.to_state, LifecycleState::Active);
    assert_eq!(t.actor, ADMIN);
    assert_eq!(t.timestamp, 3);
    assert!(c.get_transition(7, 5).is_none());
    // Completed is final.
    assert_eq!(go(&mut c, ADV, LifecycleState::Active, 7), Err(Error::InvalidStateTransition));
}

#[test]
fn lifecycle_refusals() {
    let mut c = setup();
    assert_eq!(go(&mut c, OTHER, LifecycleState::PendingReview, 2), Err(Error::Unauthorized));
    assert_eq!(go(&mut c, ADV, LifecycleState::Active, 2), Err(Error::InvalidStateTransition));
    assert_eq!(
        c.transition(&Auth::all(), &at(2), ADV, 99, LifecycleState::PendingReview, "x".to_string()),
        Err(Error::LifecycleNotFound)
    );
    assert_eq!(c.get_transition_count(7), 0);
    assert_eq!(c.get_lifecycle(7).unwrap().state, LifecycleState::Draft);
}

#[test]
fn lifecycle_extend() {
    let mut c = setup();
    ok(c.extend_campaign(&Auth::all(), ADV, 7, 50));
    ok(c.extend_campaign(&Auth::all(), ADV, 7, 25));
    let l = c.get_lifecycle(7).unwrap();
    assert_eq!(l.current_end_ledger, 1075);
    assert_eq!(l.original_end_ledger, 1000);
    assert_eq!(l.extension_count, 2);
    assert_eq!(c.extend_campaign(&Auth::all(), OTHER, 7, 1), Err(Error::Unauthorized));
    assert_eq!(c.extend_campaign(&Auth::all(), ADV, 7, u32::MAX), Err(Error::Overflow));
}

#[test]
fn lifecycle_log_chains_and_counts_pauses() {
    let mut c = setup();
    ok(go(&mut c, ADV, LifecycleState::PendingReview, 2));
    ok(go(&mut c, ADMIN, LifecycleState::Active, 3));
    assert_eq!(go(&mut c, ADV, LifecycleState::Draft, 4), Err(Error::InvalidStateTransition));
    ok(go(&mut c, ADV, LifecycleState::Paused, 4));
    ok(go(&mut c, ADV, LifecycleState::Active, 5));
    ok(go(&mut c, ADV, LifecycleState::Paused, 6));
    ok(go(&mut c, ADV, LifecycleState::Cancelled, 7));
    let n = c.get_transition_count(7);
    assert_eq!(n, 6);
    assert_eq!(c.get_transition(7, 0).unwrap().from_state, LifecycleState::Draft);
    for i in 0..n - 1 {
        assert_eq!(c.get_transition(7, i).unwrap().to_state, c.get_transition(7, i + 1).unwrap().from_state);
    }
    let l = c.get_lifecycle(7).unwrap();
    assert_eq!(c.get_transition(7, n - 1).unwrap().to_state, l.state);
    assert_eq!(l.pause_count, 2);
    assert_eq!(go(&mut c, ADV, LifecycleState::Active, 8), Err(Error::InvalidStateTransition));
    assert_eq!(c.get_lifecycle(7).unwrap().state, LifecycleState::Cancelled);
}
