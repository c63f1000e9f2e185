use pulsartrack::common::{Auth, Error, Ledger, Party, Transfer};
use pulsartrack::creative_marketplace::{CreativeMarketplaceContract, LicenseType, ListingStatus};

fn ok<T>(r: Result<T, Error>) -> T {
    match r {
        Ok(v) => v,
        Err(e) => panic!("{}", e.message()),
    }
}

fn ledger() -> Ledger {
    Ledger { timestamp: 0, sequence: 0 }
}

const ADMIN: u64 = 1;
const TOKEN: u64 = 2;
const CREATOR: u64 = 3;
const BUYER: u64 = 4;

fn setup() -> CreativeMarketplaceContract {
    let mut c = CreativeMarketplaceContract::new();
    ok(c.initialize(&Auth::all(), ADMIN, TOKEN));
    c
}

fn list(c: &mut CreativeMarketplaceContract, hash: &str, price: i128, license: LicenseType) -> Result<u64, Error> {
    c.create_listing(
        &Auth::all(),
        &ledger(),
        CREATOR,
        hash.to_string(),
        "Banner".to_string(),
        "Desc".to_string(),
        price,
        license,
    )
}

#[test]
fn creative_marketplace_test_initialize() {
    setup();
}

#[test]
fn creative_marketplace_test_initialize_twice() {
    let mut c = setup();
    assert_eq!(c.initialize(&Auth::all(), ADMIN, TOKEN), Err(Error::AlreadyInitialized));
}

#[test]
fn test_create_listing() {
    let mut c = setup();
    let id = ok(c.create_listing(
        &Auth::all(),
        &ledger(),
        CREATOR,
        "QmHash".to_string(),
        "Banner Ad".to_string(),
        "A beautiful banner".to_string(),
        10_000,
        LicenseType::OneTime,
    ));
    assert_eq!(id, 1);
    let l = c.get_listing(id).unwrap();
    assert_eq!(l.price, 10_000);
    assert!(matches!(l.status, ListingStatus::Active));
}

#[test]
fn test_purchase_license() {
    let mut c = setup();
    let id = ok(list(&mut c, "QmHash", 10_000, LicenseType::OneTime));
    ok(c.purchase_license(&Auth::all(), &ledger(), BUYER, id, Some(86_400)));
    assert!(c.has_license(&ledger(), id, BUYER));
    let license = c.get_license(id, BUYER).unwrap();
    assert_eq!(license.listing_id, id);
}

#[test]
fn test_remove_listing() {
    let mut c = setup();
    let id = ok(list(&mut c, "QmHash", 10_000, LicenseType::OneTime));
    ok(c.remove_listing(&Auth::all(), &ledger(), CREATOR, id));
    assert!(matches!(c.get_listing(id).unwrap().status, ListingStatus::Removed));
}

#[test]
fn test_get_listing_nonexistent() {
    let c = setup();
    assert!(c.get_listing(999).is_none());
}

#[test]
fn test_has_license_false() {
    let c = setup();
    assert!(!c.has_license(&ledger(), 1, 77));
}

#[test]
#[should_panic(expected = "content already listed - check for exclusive licenses")]
fn test_duplicate_exclusive_content_blocked() {
    let mut c = setup();
    ok(list(&mut c, "QmExclusiveContent123", 50_000, LicenseType::Exclusive));
    ok(list(&mut c, "QmExclusiveContent123", 30_000, LicenseType::Exclusive));
}

#[test]
fn test_non_exclusive_allows_duplicate_content() {
    let mut c = setup();
    let a = ok(list(&mut c, "QmNonExclusiveContent456", 10_000, LicenseType::OneTime));
    let b = ok(list(&mut c, "QmNonExclusiveContent456", 15_000, LicenseType::Recurring));
    assert_eq!(a, 1);
    assert_eq!(b, 2);
}

#[test]
fn test_remove_exclusive_listing_allows_recreation() {
    let mut c = setup();
    let a = ok(list(&mut c, "QmExclusiveRemovable789", 50_000, LicenseType::Exclusive));
    ok(c.remove_listing(&Auth::all(), &ledger(), CREATOR, a));
    let b = ok(list(&mut c, "QmExclusiveRemovable789", 60_000, LicenseType::Exclusive));
    assert_eq!(b, 2);
    assert_eq!(c.get_listing(b).unwrap().price, 60_000);
}

#[test]
fn test_exclusive_license_marks_sold() {
    let mut c = setup();
    let id = ok(list(&mut c, "QmExclusiveSold", 100_000, LicenseType::Exclusive));
    ok(c.purchase_license(&Auth::all(), &ledger(), BUYER, id, None));
    assert!(matches!(c.get_listing(id).unwrap().status, ListingStatus::Sold));
}

#[test]
fn marketplace_purchase_splits_price() {
    let mut c = setup();
    let id = ok(list(&mut c, "QmSplit", 10_000, LicenseType::OneTime));
    let t = ok(c.purchase_license(&Auth::all(), &ledger(), BUYER, id, None));
    // 2.5% of 10_000 is 250.
    assert_eq!(
        t,
        vec![
            Transfer { token: TOKEN, from: Party::Account(BUYER), to: Party::Account(CREATOR), amount: 9_750 },
            Transfer { token: TOKEN, from: Party::Account(BUYER), to: Party::Account(ADMIN), amount: 250 },
        ]
    );
    assert_eq!(c.get_listing(id).unwrap().sale_count, 1);
}

#[test]
fn marketplace_small_price_has_no_fee() {
    let mut c = setup();
    let id = ok(list(&mut c, "QmTiny", 39, LicenseType::OneTime));
    let t = ok(c.purchase_license(&Auth::all(), &ledger(), BUYER, id, None));
    assert_eq!(t.len(), 1);
    assert_eq!(t[0].amount, 39);
}

#[test]
fn marketplace_license_expiry() {
    let mut c = setup();
    let id = ok(list(&mut c, "QmExpiry", 1_000, LicenseType::OneTime));
    let at = Ledger { timestamp: 100, sequence: 0 };
    ok(c.purchase_license(&Auth::all(), &at, BUYER, id, Some(50)));
    assert_eq!(c.get_license(id, BUYER).unwrap().expires_at, Some(150));
    assert!(c.has_license(&Ledger { timestamp: 149, sequence: 0 }, id, BUYER));
    assert!(!c.has_license(&Ledger { timestamp: 150, sequence: 0 }, id, BUYER));
}

#[test]
fn marketplace_refusals() {
    let mut c = setup();
    assert_eq!(list(&mut c, "QmZero", 0, LicenseType::OneTime), Err(Error::InvalidPrice));
    assert_eq!(c.purchase_license(&Auth::all(), &ledger(), BUYER, 5, None), Err(Error::ListingNotFound));
    let id = ok(list(&mut c, "QmOnce", 1_000, LicenseType::OneTime));
    ok(c.purchase_license(&Auth::all(), &ledger(), BUYER, id, None));
    assert_eq!(c.purchase_license(&Auth::all(), &ledger(), BUYER, id, None), Err(Error::AlreadyLicensed));
    assert_eq!(c.remove_listing(&Auth::all(), &ledger(), BUYER, id), Err(Error::Unauthorized));
    ok(c.remove_listing(&Auth::all(), &ledger(), CREATOR, id));
    assert_eq!(c.purchase_license(&Auth::all(), &ledger(), 9, id, None), Err(Error::ListingNotActive));
}

#[test]
fn marketplace_sold_exclusive_still_blocks_content() {
    let mut c = setup();
    let id = ok(list(&mut c, "QmHeld", 1_000, LicenseType::Exclusive));
    ok(c.purchase_license(&Auth::all(), &ledger(), BUYER, id, None));
    assert_eq!(list(&mut c, "QmHeld", 1_000, LicenseType::OneTime), Err(Error::ContentAlreadyListed));
}
