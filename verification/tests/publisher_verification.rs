use pulsartrack::common::{Auth, Error, Ledger};
use pulsartrack::publisher_verification::{PublisherTier, PublisherVerificationContract, VerificationStatus};

fn ok<T>(r: Result<T, Error>) -> T {
    match r {
        Ok(v) => v,
        Err(e) => panic!("{}", e.message()),
    }
}

fn at(timestamp: u64) -> Ledger {
    Ledger { timestamp, sequence: 3 }
}

const ADMIN: u64 = 1;
const P1: u64 = 2;
const P2: u64 = 3;

fn setup() -> PublisherVerificationContract {
    let mut c = PublisherVerificationContract::new();
    ok(c.initialize(&Auth::all(), ADMIN));
    ok(c.register_publisher(&Auth::all(), &at(1), P1, "news.example".to_string()));
    c
}

#[test]
fn publisher_score_to_tier_bounds() {
    assert_eq!(PublisherVerificationContract::_score_to_tier(0), PublisherTier::Bronze);
    assert_eq!(PublisherVerificationContract::_score_to_tier(199), PublisherTier::Bronze);
    assert_eq!(PublisherVerificationContract::_score_to_tier(200), PublisherTier::Silver);
    assert_eq!(PublisherVerificationContract::_score_to_tier(499), PublisherTier::Silver);
    assert_eq!(PublisherVerificationContract::_score_to_tier(500), PublisherTier::Gold);
    assert_eq!(PublisherVerificationContract::_score_to_tier(799), PublisherTier::Gold);
    assert_eq!(PublisherVerificationContract::_score_to_tier(800), PublisherTier::Platinum);
    assert_eq!(PublisherVerificationContract::_score_to_tier(1000), PublisherTier::Platinum);
}

#[test]
fn publisher_register_and_domain_uniqueness() {
    let mut c = setup();
    let p = c.get_publisher(P1).unwrap();
    assert_eq!(p.status, VerificationStatus::Pending);
    assert_eq!(p.tier, PublisherTier::Bronze);
    assert_eq!(p.join_ledger, 3);
    assert_eq!(c.get_domain_owner("news.example"), Some(P1));
    assert_eq!(c.get_publisher_count(), 1);
    assert_eq!(
        c.register_publisher(&Auth::all(), &at(2), P2, "news.example".to_string()),
        Err(Error::DomainAlreadyRegistered)
    );
    assert_eq!(
        c.register_publisher(&Auth::all(), &at(2), P1, "other.example".to_string()),
        Err(Error::AlreadyRegistered)
    );
    ok(c.register_publisher(&Auth::all(), &at(2), P2, "other.example".to_string()));
    assert_eq!(c.get_domain_owner("other.example"), Some(P2));
    assert_eq!(c.get_publisher_count(), 2);
    assert_eq!(c.get_domain_owner("none.example"), None);
}

#[test]
fn publisher_kyc_and_verification() {
    let mut c = setup();
    assert_eq!(
        c.submit_kyc(&Auth::all(), &at(2), P2, "h".to_string(), "prov".to_string()),
        Err(Error::NotRegistered)
    );
    ok(c.submit_kyc(&Auth::all(), &at(2), P1, "hash".to_string(), "prov".to_string()));
    assert!(!c.get_kyc(P1).unwrap().verified);
    assert!(!c.is_verified(P1));
    assert_eq!(
        c.verify_publisher(&Auth::all(), &at(5), P2, P1, PublisherTier::Silver),
        Err(Error::Unauthorized)
    );
    ok(c.verify_publisher(&Auth::all(), &at(5), ADMIN, P1, PublisherTier::Silver));
    assert!(c.is_verified(P1));
    let p = c.get_publisher(P1).unwrap();
    assert_eq!(p.tier, PublisherTier::Silver);
    assert_eq!(p.reputation_score, 100);
    assert_eq!(p.verified_at, Some(5));
    let k = c.get_kyc(P1).unwrap();
    assert!(k.verified);
    assert_eq!(k.verified_at, Some(5));
    ok(c.suspend_publisher(&Auth::all(), ADMIN, P1));
    assert!(!c.is_verified(P1));
    assert_eq!(c.get_publisher(P1).unwrap().status, VerificationStatus::Suspended);
}

#[test]
fn publisher_reputation_and_impressions() {
    let mut c = setup();
    assert_eq!(c.record_impression(&at(6), 9, P1, 10), Err(Error::PublisherNotVerified));
    ok(c.verify_publisher(&Auth::all(), &at(5), ADMIN, P1, PublisherTier::Bronze));
    ok(c.record_impression(&at(6), 9, P1, 10));
    ok(c.record_impression(&at(7), 9, P1, 15));
    let p = c.get_publisher(P1).unwrap();
    assert_eq!(p.total_impressions, 2);
    assert_eq!(p.total_earnings, 25);
    assert_eq!(p.last_active, 7);
    assert_eq!(c.update_reputation(&Auth::all(), ADMIN, P1, 1001), Err(Error::InvalidScore));
    ok(c.update_reputation(&Auth::all(), ADMIN, P1, 650));
    let p = c.get_publisher(P1).unwrap();
    assert_eq!(p.reputation_score, 650);
    assert_eq!(p.tier, PublisherTier::Gold);
    assert_eq!(c.update_reputation(&Auth::all(), ADMIN, P2, 5), Err(Error::PublisherNotFound));
}
