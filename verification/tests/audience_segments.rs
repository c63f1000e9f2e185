use pulsartrack::admin::{accept_admin, propose_admin, AdminSlot};
use pulsartrack::audience_segments::AudienceSegmentsContract;
use pulsartrack::common::{Auth, Error, Ledger};

fn ok<T>(r: Result<T, Error>) -> T {
    match r {
        Ok(v) => v,
        Err(e) => panic!("{}", e.message()),
    }
}

fn at(timestamp: u64) -> Ledger {
    Ledger { timestamp, sequence: 0 }
}

const ADMIN: u64 = 1;
const CREATOR: u64 = 2;
const MEMBER: u64 = 3;
const OTHER: u64 = 4;

fn setup() -> (AudienceSegmentsContract, u64) {
    let mut c = AudienceSegmentsContract::new();
    ok(c.initialize(&Auth::all(), ADMIN));
    let id = ok(c.create_segment(
        &Auth::all(),
        &at(1),
        CREATOR,
        "gamers".to_string(),
        "likes games".to_string(),
        "Qm".to_string(),
        true,
    ));
    (c, id)
}

#[test]
fn segments_create() {
    let (c, id) = setup();
    assert_eq!(id, 1);
    let s = c.get_segment(id).unwrap();
    assert_eq!(s.creator, CREATOR);
    assert_eq!(s.member_count, 0);
    assert_eq!(c.get_segment_count(), 1);
    assert!(c.get_segment(2).is_none());
}

#[test]
fn segments_membership_counting() {
    let (mut c, id) = setup();
    ok(c.add_member(&Auth::all(), &at(2), CREATOR, id, MEMBER, 700));
    ok(c.add_member(&Auth::all(), &at(2), ADMIN, id, OTHER, 10));
    assert_eq!(c.add_member(&Auth::all(), &at(2), ADMIN, id, MEMBER, 1), Err(Error::AlreadyMember));
    assert_eq!(c.get_member_count(id), 2);
    assert!(c.is_member(id, MEMBER));
    let m = c.get_membership(id, MEMBER).unwrap();
    assert_eq!(m.score, 700);
    assert_eq!(m.joined_at, 2);
    ok(c.remove_member(&Auth::all(), CREATOR, id, MEMBER));
    assert!(!c.is_member(id, MEMBER));
    assert_eq!(c.get_member_count(id), 1);
    assert!(c.get_membership(id, MEMBER).is_none());
}

#[test]
fn segments_refusals() {
    let (mut c, id) = setup();
    assert_eq!(c.add_member(&Auth::all(), &at(2), OTHER, id, MEMBER, 1), Err(Error::Unauthorized));
    assert_eq!(c.add_member(&Auth::all(), &at(2), ADMIN, 99, MEMBER, 1), Err(Error::SegmentNotFound));
    assert_eq!(c.remove_member(&Auth::all(), OTHER, id, MEMBER), Err(Error::Unauthorized));
    assert_eq!(c.get_member_count(id), 0);
}

#[test]
fn segments_admin_handover() {
    let (mut c, id) = setup();
    assert_eq!(c.accept_admin(&Auth::all(), OTHER), Err(Error::NoPendingAdmin));
    assert_eq!(c.propose_admin(&Auth::all(), OTHER, OTHER), Err(Error::Unauthorized));
    ok(c.propose_admin(&Auth::all(), ADMIN, OTHER));
    assert_eq!(c.accept_admin(&Auth::all(), MEMBER), Err(Error::NotPendingAdmin));
    ok(c.accept_admin(&Auth::all(), OTHER));
    // The new administrator manages every segment; the old one no longer does.
    ok(c.add_member(&Auth::all(), &at(3), OTHER, id, MEMBER, 5));
    assert_eq!(c.add_member(&Auth::all(), &at(3), ADMIN, id, 9, 5), Err(Error::Unauthorized));
}

#[test]
fn admin_slot_two_step() {
    let mut slot = AdminSlot { admin: Some(ADMIN), pending: None };
    ok(propose_admin(&mut slot, &Auth::all(), ADMIN, OTHER));
    assert_eq!(slot, AdminSlot { admin: Some(ADMIN), pending: Some(OTHER) });
    assert_eq!(accept_admin(&mut slot, &Auth::none(), OTHER), Err(Error::AuthRequired));
    ok(accept_admin(&mut slot, &Auth::signed_by(vec![OTHER]), OTHER));
    assert_eq!(slot, AdminSlot { admin: Some(OTHER), pending: None });
    let mut empty = AdminSlot { admin: None, pending: None };
    assert_eq!(propose_admin(&mut empty, &Auth::all(), ADMIN, OTHER), Err(Error::NotInitialized));
}
