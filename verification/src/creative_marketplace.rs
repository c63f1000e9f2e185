//! A marketplace for licensing ad creatives. Buyers pay a listing's price,
//! less a platform fee that goes to the administrator; an exclusive license
//! closes its listing, and content listed under an exclusive license cannot
//! be listed again until that listing is removed.
use vstd::prelude::*;
use std::collections::BTreeMap;
use vstd::hash_map::StringHashMap;
use crate::common::{Auth, Error, Ledger, Party, Transfer, div_trunc, fits_i128};

verus! {

/// The states of a listing.
#[derive(Clone, Copy, PartialEq, Eq, Structural, Debug)]
pub enum ListingStatus {
    Active,
    Sold,
    Unlicensed,
    Removed,
}

/// The kinds of license.
#[derive(Clone, Copy, PartialEq, Eq, Structural, Debug)]
pub enum LicenseType {
    OneTime,
    Recurring,
    Exclusive,
    OpenSource,
}

/// A creative offered for licensing.
#[derive(Clone, Debug)]
pub struct CreativeListing {
    pub listing_id: u64,
    pub creator: u64,
    /// IPFS hash of the content.
    pub content_hash: String,
    pub title: String,
    pub description: String,
    pub price: i128,
    pub license_type: LicenseType,
    pub status: ListingStatus,
    pub sale_count: u64,
    pub created_at: u64,
    pub last_updated: u64,
}

/// A license bought on a listing.
#[derive(Clone, Copy, PartialEq, Eq, Structural, Debug)]
pub struct License {
    pub listing_id: u64,
    pub licensee: u64,
    pub license_type: LicenseType,
    pub paid_amount: i128,
    pub purchased_at: u64,
    pub expires_at: Option<u64>,
}

/// The platform fee on a price: `fee_bps` basis points, rounded toward zero.
pub open spec fn platform_fee_of(price: i128, fee_bps: u32) -> int {
    div_trunc(price * fee_bps, 10_000)
}

/// The contract's storage, as values.
pub struct CreativeMarketplaceState {
    pub admin: Option<u64>,
    pub token: Option<u64>,
    pub listing_counter: u64,
    pub fee_bps: u32,
    pub listings: Map<u64, CreativeListing>,
    /// Licenses by listing and licensee.
    pub licenses: Map<(u64, u64), License>,
    /// The exclusive listing that holds each piece of content.
    pub exclusive_content: Map<Seq<char>, u64>,
}

impl CreativeMarketplaceState {
    /// Whether `content_hash` is held by an exclusive listing that has not
    /// been removed.
    pub open spec fn content_taken(self, content_hash: Seq<char>) -> bool {
        self.exclusive_content.contains_key(content_hash) && {
            let id = self.exclusive_content[content_hash];
            self.listings.contains_key(id) && self.listings[id].status != ListingStatus::Removed
        }
    }

    pub open spec fn create_error(self, auth: Auth, creator: u64, content_hash: Seq<char>, price: i128) -> Option<
        Error,
    > {
        if !auth.authorizes(creator) {
            Some(Error::AuthRequired)
        } else if price <= 0 {
            Some(Error::InvalidPrice)
        } else if self.content_taken(content_hash) {
            Some(Error::ContentAlreadyListed)
        } else if self.listing_counter == u64::MAX {
            Some(Error::Overflow)
        } else {
            None
        }
    }

    pub open spec fn purchase_error(
        self,
        auth: Auth,
        now: u64,
        buyer: u64,
        listing_id: u64,
        duration: Option<u64>,
    ) -> Option<Error> {
        let l = self.listings[listing_id];
        let fee = platform_fee_of(l.price, self.fee_bps);
        if !auth.authorizes(buyer) {
            Some(Error::AuthRequired)
        } else if !self.listings.contains_key(listing_id) {
            Some(Error::ListingNotFound)
        } else if l.status != ListingStatus::Active {
            Some(Error::ListingNotActive)
        } else if self.licenses.contains_key((listing_id, buyer)) {
            Some(Error::AlreadyLicensed)
        } else if !fits_i128(l.price * self.fee_bps) || !fits_i128(l.price - fee) {
            Some(Error::Overflow)
        } else if self.token is None || (fee > 0 && self.admin is None) {
            Some(Error::NotInitialized)
        } else if (duration is Some && now + duration.unwrap() > u64::MAX) || l.sale_count == u64::MAX {
            Some(Error::Overflow)
        } else {
            None
        }
    }

    /// The storage after `buyer` buys a license for listing `listing_id` at
    /// `now`: the license is recorded, the sale counted, and an exclusive
    /// listing is sold.
    pub open spec fn after_purchase(self, now: u64, buyer: u64, listing_id: u64, duration: Option<u64>) -> Self {
        let l = self.listings[listing_id];
        CreativeMarketplaceState {
            licenses: self.licenses.insert(
                (listing_id, buyer),
                License {
                    listing_id,
                    licensee: buyer,
                    license_type: l.license_type,
                    paid_amount: l.price,
                    purchased_at: now,
                    expires_at: match duration {
                        Some(d) => Some((now + d) as u64),
                        None => None,
                    },
                },
            ),
            listings: self.listings.insert(
                listing_id,
                CreativeListing {
                    sale_count: (l.sale_count + 1) as u64,
                    last_updated: now,
                    status: if l.license_type == LicenseType::Exclusive {
                        ListingStatus::Sold
                    } else {
                        l.status
                    },
                    ..l
                },
            ),
            ..self
        }
    }
}

/// The creative-marketplace contract.
pub struct CreativeMarketplaceContract {
    admin: Option<u64>,
    token: Option<u64>,
    listing_counter: u64,
    fee_bps: u32,
    listings: BTreeMap<u64, CreativeListing>,
    licenses: BTreeMap<(u64, u64), License>,
    exclusive_content: StringHashMap<u64>,
}

impl View for CreativeMarketplaceContract {
    type V = CreativeMarketplaceState;

    closed spec fn view(&self) -> CreativeMarketplaceState {
        CreativeMarketplaceState {
            admin: self.admin,
            token: self.token,
            listing_counter: self.listing_counter,
            fee_bps: self.fee_bps,
            listings: self.listings@,
            licenses: self.licenses@,
            exclusive_content: self.exclusive_content@,
        }
    }
}

impl CreativeMarketplaceContract {
    /// A contract with empty storage; the fee reads as 250 basis points.
    pub fn new() -> (c: Self)
        ensures
            c@ == (CreativeMarketplaceState {
                admin: None,
                token: None,
                listing_counter: 0,
                fee_bps: 250,
                listings: Map::empty(),
                licenses: Map::empty(),
                exclusive_content: Map::empty(),
            }),
    {
        CreativeMarketplaceContract {
            admin: None,
            token: None,
            listing_counter: 0,
            fee_bps: 250,
            listings: BTreeMap::new(),
            licenses: BTreeMap::new(),
            exclusive_content: StringHashMap::new(),
        }
    }

    /// Stores the administrator and payment token, with a platform fee of
    /// 250 basis points.
    pub fn initialize(&mut self, auth: &Auth, admin: u64, token: u64) -> (r: Result<(), Error>)
        ensures
            r == crate::common::outcome(
                if old(self)@.admin is Some {
                    Some(Error::AlreadyInitialized)
                } else if !auth.authorizes(admin) {
                    Some(Error::AuthRequired)
                } else {
                    None
                },
                (),
            ),
            r is Err ==> final(self)@ == old(self)@,
            r is Ok ==> final(self)@ == (CreativeMarketplaceState {
                admin: Some(admin),
                token: Some(token),
                listing_counter: 0,
                fee_bps: 250,
                ..old(self)@
            }),
    {
        if self.admin.is_some() {
            return Err(Error::AlreadyInitialized);
        }
        if !auth.check(admin) {
            return Err(Error::AuthRequired);
        }
        self.admin = Some(admin);
        self.token = Some(token);
        self.listing_counter = 0;
        self.fee_bps = 250;
        Ok(())
    }

    fn content_taken(&self, content_hash: &str) -> (r: bool)
        ensures
            r == self@.content_taken(content_hash@),
    {
        match self.exclusive_content.get(content_hash) {
            Some(id) => match self.listings.get(id) {
                Some(l) => l.status != ListingStatus::Removed,
                None => false,
            },
            None => false,
        }
    }

    /// Lists a creative at a positive price and returns the listing's id,
    /// one more than the last. Content held by an exclusive listing that has
    /// not been removed cannot be listed; an exclusive listing takes hold of
    /// its content.
    pub fn create_listing(
        &mut self,
        auth: &Auth,
        ledger: &Ledger,
        creator: u64,
        content_hash: String,
        title: String,
        description: String,
        price: i128,
        license_type: LicenseType,
    ) -> (r: Result<u64, Error>)
        ensures
            match old(self)@.create_error(*auth, creator, content_hash@, price) {
                Some(e) => r == Err::<u64, Error>(e) && final(self)@ == old(self)@,
                None => {
                    let id = (old(self)@.listing_counter + 1) as u64;
                    &&& r == Ok::<u64, Error>(id)
                    &&& final(self)@ == CreativeMarketplaceState {
                        listing_counter: id,
                        listings: old(self)@.listings.insert(
                            id,
                            CreativeListing {
                                listing_id: id,
                                creator,
                                content_hash,
                                title,
                                description,
                                price,
                                license_type,
                                status: ListingStatus::Active,
                                sale_count: 0,
                                created_at: ledger.timestamp,
                                last_updated: ledger.timestamp,
                            },
                        ),
                        exclusive_content: if license_type == LicenseType::Exclusive {
                            old(self)@.exclusive_content.insert(content_hash@, id)
                        } else {
                            old(self)@.exclusive_content
                        },
                        ..old(self)@
                    }
                },
            },
    {
        if !auth.check(creator) {
            return Err(Error::AuthRequired);
        }
        if price <= 0 {
            return Err(Error::InvalidPrice);
        }
        if self.content_taken(content_hash.as_str()) {
            return Err(Error::ContentAlreadyListed);
        }
        if self.listing_counter == u64::MAX {
            return Err(Error::Overflow);
        }
        let listing_id = self.listing_counter + 1;
        if license_type == LicenseType::Exclusive {
            self.exclusive_content.insert(content_hash.clone(), listing_id);
        }
        let listing = CreativeListing {
            listing_id,
            creator,
            content_hash,
            title,
            description,
            price,
            license_type,
            status: ListingStatus::Active,
            sale_count: 0,
            created_at: ledger.timestamp,
            last_updated: ledger.timestamp,
        };
        self.listings.insert(listing_id, listing);
        self.listing_counter = listing_id;
        Ok(listing_id)
    }

    /// Licenses an active listing to the buyer, once per buyer: the creator
    /// receives the price less the platform fee, the administrator the fee.
    /// The license expires `license_duration_secs` from now, or never; an
    /// exclusive license marks the listing sold.
    pub fn purchase_license(
        &mut self,
        auth: &Auth,
        ledger: &Ledger,
        buyer: u64,
        listing_id: u64,
        license_duration_secs: Option<u64>,
    ) -> (r: Result<Vec<Transfer>, Error>)
        ensures
            match old(self)@.purchase_error(*auth, ledger.timestamp, buyer, listing_id, license_duration_secs) {
                Some(e) => r == Err::<Vec<Transfer>, Error>(e) && final(self)@ == old(self)@,
                None => {
                    let l = old(self)@.listings[listing_id];
                    let fee = platform_fee_of(l.price, old(self)@.fee_bps);
                    let now = ledger.timestamp;
                    let to_creator = Transfer {
                        token: old(self)@.token.unwrap(),
                        from: Party::Account(buyer),
                        to: Party::Account(l.creator),
                        amount: (l.price - fee) as i128,
                    };
                    &&& r matches Ok(t) && t@ == (if fee > 0 {
                        seq![
                            to_creator,
                            Transfer {
                                token: old(self)@.token.unwrap(),
                                from: Party::Account(buyer),
                                to: Party::Account(old(self)@.admin.unwrap()),
                                amount: fee as i128,
                            },
                        ]
                    } else {
                        seq![to_creator]
                    })
                    &&& final(self)@ == old(self)@.after_purchase(now, buyer, listing_id, license_duration_secs)
                },
            },
    {
        if !auth.check(buyer) {
            return Err(Error::AuthRequired);
        }
        let mut listing = match self.listings.remove(&listing_id) {
            Some(l) => l,
            None => {
                assert(self.listings@ =~= old(self).listings@);
                return Err(Error::ListingNotFound);
            },
        };
        let err: Option<Error> = if listing.status != ListingStatus::Active {
            Some(Error::ListingNotActive)
        } else if self.licenses.contains_key(&(listing_id, buyer)) {
            Some(Error::AlreadyLicensed)
        } else {
            None
        };
        match err {
            Some(e) => {
                self.listings.insert(listing_id, listing);
                assert(self.listings@ =~= old(self).listings@);
                return Err(e);
            },
            None => {},
        }
        let scaled = listing.price.checked_mul(self.fee_bps as i128);
        let fee: i128 = match scaled {
            Some(x) => x / 10_000,
            None => 0,
        };
        let creator_amount = listing.price.checked_sub(fee);
        let now = ledger.timestamp;
        let expires_at: Option<Option<u64>> = match license_duration_secs {
            Some(d) => match now.checked_add(d) {
                Some(x) => Some(Some(x)),
                None => None,
            },
            None => Some(None),
        };
        let err: Option<Error> = if scaled.is_none() || creator_amount.is_none() {
            Some(Error::Overflow)
        } else if self.token.is_none() || (fee > 0 && self.admin.is_none()) {
            Some(Error::NotInitialized)
        } else if expires_at.is_none() || listing.sale_count == u64::MAX {
            Some(Error::Overflow)
        } else {
            None
        };
        match err {
            Some(e) => {
                self.listings.insert(listing_id, listing);
                assert(self.listings@ =~= old(self).listings@);
                return Err(e);
            },
            None => {},
        }
        let token = self.token.unwrap();
        let mut transfers: Vec<Transfer> = Vec::new();
        transfers.push(
            Transfer {
                token,
                from: Party::Account(buyer),
                to: Party::Account(listing.creator),
                amount: creator_amount.unwrap(),
            },
        );
        if fee > 0 {
            transfers.push(
                Transfer {
                    token,
                    from: Party::Account(buyer),
                    to: Party::Account(self.admin.unwrap()),
                    amount: fee,
                },
            );
        }
        let license = License {
            listing_id,
            licensee: buyer,
            license_type: listing.license_type,
            paid_amount: listing.price,
            purchased_at: now,
            expires_at: expires_at.unwrap(),
        };
        self.licenses.insert((listing_id, buyer), license);
        listing.sale_count = listing.sale_count + 1;
        listing.last_updated = now;
        if listing.license_type == LicenseType::Exclusive {
            listing.status = ListingStatus::Sold;
        }
        self.listings.insert(listing_id, listing);
        assert(self.listings@ =~= old(self).listings@.insert(listing_id, listing));
        Ok(transfers)
    }

    /// Withdraws a listing; only its creator may.
    pub fn remove_listing(&mut self, auth: &Auth, ledger: &Ledger, creator: u64, listing_id: u64) -> (r: Result<
        (),
        Error,
    >)
        ensures
            r == crate::common::outcome(
                if !auth.authorizes(creator) {
                    Some(Error::AuthRequired)
                } else if !old(self)@.listings.contains_key(listing_id) {
                    Some(Error::ListingNotFound)
                } else if old(self)@.listings[listing_id].creator != creator {
                    Some(Error::Unauthorized)
                } else {
                    None
                },
                (),
            ),
            r is Err ==> final(self)@ == old(self)@,
            r is Ok ==> final(self)@ == (CreativeMarketplaceState {
                listings: old(self)@.listings.insert(
                    listing_id,
                    CreativeListing {
                        status: ListingStatus::Removed,
                        last_updated: ledger.timestamp,
                        ..old(self)@.listings[listing_id]
                    },
                ),
                ..old(self)@
            }),
    {
        if !auth.check(creator) {
            return Err(Error::AuthRequired);
        }
        let mut listing = match self.listings.remove(&listing_id) {
            Some(l) => l,
            None => {
                assert(self.listings@ =~= old(self).listings@);
                return Err(Error::ListingNotFound);
            },
        };
        if listing.creator != creator {
            self.listings.insert(listing_id, listing);
            assert(self.listings@ =~= old(self).listings@);
            return Err(Error::Unauthorized);
        }
        listing.status = ListingStatus::Removed;
        listing.last_updated = ledger.timestamp;
        self.listings.insert(listing_id, listing);
        assert(self.listings@ =~= old(self).listings@.insert(listing_id, listing));
        Ok(())
    }

    /// A listing, if it exists.
    pub fn get_listing(&self, listing_id: u64) -> (r: Option<&CreativeListing>)
        ensures
            match r {
                Some(l) => self@.listings.contains_key(listing_id) && *l == self@.listings[listing_id],
                None => !self@.listings.contains_key(listing_id),
            },
    {
        self.listings.get(&listing_id)
    }

    /// A licensee's license on a listing, if bought.
    pub fn get_license(&self, listing_id: u64, licensee: u64) -> (r: Option<License>)
        ensures
            r == (if self@.licenses.contains_key((listing_id, licensee)) {
                Some(self@.licenses[(listing_id, licensee)])
            } else {
                None::<License>
            }),
    {
        match self.licenses.get(&(listing_id, licensee)) {
            Some(l) => Some(*l),
            None => None,
        }
    }

    /// Whether the licensee holds a license on the listing that has not
    /// expired: one without an expiry, or one that expires after now.
    pub fn has_license(&self, ledger: &Ledger, listing_id: u64, licensee: u64) -> (r: bool)
        ensures
            r == (self@.licenses.contains_key((listing_id, licensee)) && match self@.licenses[(
            listing_id,
            licensee,
            )].expires_at {
                Some(e) => e > ledger.timestamp,
                None => true,
            }),
    {
        match self.licenses.get(&(listing_id, licensee)) {
            Some(l) => match l.expires_at {
                Some(e) => e > ledger.timestamp,
                None => true,
            },
            None => false,
        }
    }
}

/// A purchase splits the price between the creator and the platform: the
/// two shares add up to the price, and with the fee rate at most 100% the
/// fee on a positive price is between 0 and the price.
pub proof fn lemma_price_split(price: i128, fee_bps: u32)
    requires
        price > 0,
        fee_bps <= 10_000,
    ensures
        (price - platform_fee_of(price, fee_bps)) + platform_fee_of(price, fee_bps) == price,
        0 <= platform_fee_of(price, fee_bps) <= price,
{
    let p = price as int;
    let f = fee_bps as int;
    assert(0 <= (p * f) / 10_000 <= p) by (nonlinear_arith)
        requires
            p > 0,
            0 <= f <= 10_000,
    {
        assert(p * f <= p * 10_000);
        assert(p * f >= 0);
    }
    if p * f == 0 {
    }
}

/// Content held by an exclusive listing cannot be listed again while that
/// listing stands.
pub proof fn lemma_exclusive_content_blocks(s: CreativeMarketplaceState, auth: Auth, creator: u64, content_hash: Seq<char>, price: i128)
    requires
        auth.authorizes(creator),
        price > 0,
        s.exclusive_content.contains_key(content_hash),
        s.listings.contains_key(s.exclusive_content[content_hash]),
        s.listings[s.exclusive_content[content_hash]].status != ListingStatus::Removed,
    ensures
        s.create_error(auth, creator, content_hash, price) == Some(Error::ContentAlreadyListed),
{
}

/// An exclusive license is sold once: after it is bought, every further
/// purchase of the listing is refused.
pub proof fn lemma_exclusive_sold_once(
    s: CreativeMarketplaceState,
    auth: Auth,
    now: u64,
    buyer: u64,
    listing_id: u64,
    duration: Option<u64>,
    auth2: Auth,
    now2: u64,
    buyer2: u64,
    duration2: Option<u64>,
)
    requires
        s.purchase_error(auth, now, buyer, listing_id, duration) is None,
        s.listings[listing_id].license_type == LicenseType::Exclusive,
    ensures
        s.after_purchase(now, buyer, listing_id, duration).purchase_error(auth2, now2, buyer2, listing_id, duration2)
            == (if auth2.authorizes(buyer2) {
            Some(Error::ListingNotActive)
        } else {
            Some(Error::AuthRequired)
        }),
{
}

/// A purchase closes only an exclusive listing: after a purchase that goes
/// through, the listing is sold if its license is exclusive and otherwise
/// stays active for further buyers; its other fields are kept, its sales
/// count one more, and the buyer holds a license of the listing's type for
/// its price, bought now.
pub proof fn lemma_purchase_keeps_open_listings(
    s: CreativeMarketplaceState,
    auth: Auth,
    now: u64,
    buyer: u64,
    listing_id: u64,
    duration: Option<u64>,
)
    requires
        s.purchase_error(auth, now, buyer, listing_id, duration) is None,
    ensures
        ({
            let l = s.listings[listing_id];
            let l2 = s.after_purchase(now, buyer, listing_id, duration).listings[listing_id];
            let lic = s.after_purchase(now, buyer, listing_id, duration).licenses[(listing_id, buyer)];
            &&& l.license_type == LicenseType::Exclusive ==> l2.status == ListingStatus::Sold
            &&& l.license_type != LicenseType::Exclusive ==> l2.status == ListingStatus::Active
            &&& l2.sale_count == l.sale_count + 1
            &&& l2.creator == l.creator && l2.price == l.price && l2.license_type == l.license_type
            &&& l2.content_hash == l.content_hash
            &&& lic.licensee == buyer && lic.listing_id == listing_id
            &&& lic.license_type == l.license_type && lic.paid_amount == l.price && lic.purchased_at == now
        }),
{
}

/// The platform's fee on a purchase is `fee_bps` basis points of the price,
/// rounded down.
pub proof fn lemma_platform_fee_is_basis_points(price: i128, fee_bps: u32)
    requires
        price >= 0,
    ensures
        platform_fee_of(price, fee_bps) * 10_000 <= price * fee_bps < (platform_fee_of(price, fee_bps) + 1)
            * 10_000,
{
    assert(price * fee_bps >= 0) by (nonlinear_arith)
        requires
            price >= 0,
    ;
    crate::common::lemma_div_trunc_rounds_to_zero(price * fee_bps, 10_000);
}

} // verus!
