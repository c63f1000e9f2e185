//! Publisher registration, KYC and verification: publishers register under
//! a domain that no one else holds, submit KYC documents, and are verified,
//! suspended and scored by the administrator.
use vstd::prelude::*;
use std::collections::BTreeMap;
use vstd::hash_map::StringHashMap;
use crate::common::{Auth, Error, Ledger, fits_i128};

verus! {

/// The states of a publisher's verification.
#[derive(Clone, Copy, PartialEq, Eq, Structural, Debug)]
pub enum VerificationStatus {
    Pending,
    Verified,
    Rejected,
    Suspended,
    Revoked,
}

/// Publisher tiers, from the lowest to the highest.
#[derive(Clone, Copy, PartialEq, Eq, Structural, Debug)]
pub enum PublisherTier {
    Bronze,
    Silver,
    Gold,
    Platinum,
}

/// A registered publisher.
#[derive(Clone, Debug)]
pub struct Publisher {
    pub owner: u64,
    pub status: VerificationStatus,
    pub tier: PublisherTier,
    pub domain: String,
    pub reputation_score: u32,
    pub total_earnings: i128,
    pub total_impressions: u64,
    pub join_ledger: u32,
    pub verified_at: Option<u64>,
    pub last_active: u64,
}

/// A publisher's KYC submission.
#[derive(Clone, Debug)]
pub struct KycRecord {
    pub publisher: u64,
    /// Hash of the KYC documents, which are kept off-chain.
    pub kyc_hash: String,
    /// Name of the KYC provider.
    pub kyc_provider: String,
    pub verified: bool,
    pub submitted_at: u64,
    pub verified_at: Option<u64>,
}

/// The tier a reputation score earns: Platinum from 800, Gold from 500,
/// Silver from 200, Bronze below.
pub open spec fn tier_for(score: u32) -> PublisherTier {
    if score >= 800 {
        PublisherTier::Platinum
    } else if score >= 500 {
        PublisherTier::Gold
    } else if score >= 200 {
        PublisherTier::Silver
    } else {
        PublisherTier::Bronze
    }
}

/// The rank of a tier: higher rank, higher tier.
pub open spec fn tier_level(tier: PublisherTier) -> int {
    match tier {
        PublisherTier::Bronze => 0,
        PublisherTier::Silver => 1,
        PublisherTier::Gold => 2,
        PublisherTier::Platinum => 3,
    }
}

/// The contract's storage, as values.
pub struct PublisherVerificationState {
    pub admin: Option<u64>,
    pub publisher_count: u64,
    pub publishers: Map<u64, Publisher>,
    pub kyc: Map<u64, KycRecord>,
    /// The publisher that holds each domain.
    pub domain_owners: Map<Seq<char>, u64>,
}

impl PublisherVerificationState {
    /// What every reachable state satisfies: every publisher holds its
    /// domain and has a reputation score of at most 1000, and every held
    /// domain is the domain of its holder.
    pub open spec fn wf(self) -> bool {
        &&& forall|p: u64| #[trigger] self.publishers.contains_key(p) ==> {
            &&& self.domain_owners.contains_key(self.publishers[p].domain@)
            &&& self.domain_owners[self.publishers[p].domain@] == p
            &&& self.publishers[p].reputation_score <= 1000
        }
        &&& forall|d: Seq<char>| #[trigger] self.domain_owners.contains_key(d) ==> {
            &&& self.publishers.contains_key(self.domain_owners[d])
            &&& self.publishers[self.domain_owners[d]].domain@ == d
        }
    }

    pub open spec fn admin_error(self, auth: Auth, admin: u64) -> Option<Error> {
        if !auth.authorizes(admin) {
            Some(Error::AuthRequired)
        } else if self.admin is None {
            Some(Error::NotInitialized)
        } else if self.admin != Some(admin) {
            Some(Error::Unauthorized)
        } else {
            None
        }
    }

    /// The error of an administrator's operation on a publisher.
    pub open spec fn admin_publisher_error(self, auth: Auth, admin: u64, publisher: u64) -> Option<Error> {
        match self.admin_error(auth, admin) {
            Some(e) => Some(e),
            None => if !self.publishers.contains_key(publisher) {
                Some(Error::PublisherNotFound)
            } else {
                None
            },
        }
    }
}

/// The publisher-verification contract.
pub struct PublisherVerificationContract {
    admin: Option<u64>,
    publisher_count: u64,
    publishers: BTreeMap<u64, Publisher>,
    kyc: BTreeMap<u64, KycRecord>,
    domain_owners: StringHashMap<u64>,
}

impl View for PublisherVerificationContract {
    type V = PublisherVerificationState;

    closed spec fn view(&self) -> PublisherVerificationState {
        PublisherVerificationState {
            admin: self.admin,
            publisher_count: self.publisher_count,
            publishers: self.publishers@,
            kyc: self.kyc@,
            domain_owners: self.domain_owners@,
        }
    }
}

impl PublisherVerificationContract {
    /// A contract with empty storage.
    pub fn new() -> (c: Self)
        ensures
            c@ == (PublisherVerificationState {
                admin: None,
                publisher_count: 0,
                publishers: Map::empty(),
                kyc: Map::empty(),
                domain_owners: Map::empty(),
            }),
            c@.wf(),
    {
        PublisherVerificationContract {
            admin: None,
            publisher_count: 0,
            publishers: BTreeMap::new(),
            kyc: BTreeMap::new(),
            domain_owners: StringHashMap::new(),
        }
    }

    /// Stores the administrator.
    pub fn initialize(&mut self, auth: &Auth, admin: u64) -> (r: Result<(), Error>)
        requires
            old(self)@.wf(),
        ensures
            final(self)@.wf(),
            r == crate::common::outcome(
                if old(self)@.admin is Some {
                    Some(Error::AlreadyInitialized)
                } else if !auth.authorizes(admin) {
                    Some(Error::AuthRequired)
                } else {
                    None
                },
                (),
            ),
            r is Err ==> final(self)@ == old(self)@,
            r is Ok ==> final(self)@ == (PublisherVerificationState {
                admin: Some(admin),
                publisher_count: 0,
                ..old(self)@
            }),
    {
        if self.admin.is_some() {
            return Err(Error::AlreadyInitialized);
        }
        if !auth.check(admin) {
            return Err(Error::AuthRequired);
        }
        self.admin = Some(admin);
        self.publisher_count = 0;
        Ok(())
    }

    fn check_admin(&self, auth: &Auth, admin: u64) -> (r: Result<(), Error>)
        ensures
            r == crate::common::outcome(self@.admin_error(*auth, admin), ()),
    {
        if !auth.check(admin) {
            return Err(Error::AuthRequired);
        }
        match self.admin {
            None => Err(Error::NotInitialized),
            Some(a) => if a != admin {
                Err(Error::Unauthorized)
            } else {
                Ok(())
            },
        }
    }

    /// Registers a publisher, pending verification, under a domain that no
    /// one holds, and counts it.
    pub fn register_publisher(&mut self, auth: &Auth, ledger: &Ledger, publisher: u64, domain: String) -> (r: Result<
        (),
        Error,
    >)
        requires
            old(self)@.wf(),
        ensures
            final(self)@.wf(),
            r == crate::common::outcome(
                if !auth.authorizes(publisher) {
                    Some(Error::AuthRequired)
                } else if old(self)@.publishers.contains_key(publisher) {
                    Some(Error::AlreadyRegistered)
                } else if old(self)@.domain_owners.contains_key(domain@) {
                    Some(Error::DomainAlreadyRegistered)
                } else if old(self)@.publisher_count == u64::MAX {
                    Some(Error::Overflow)
                } else {
                    None
                },
                (),
            ),
            r is Err ==> final(self)@ == old(self)@,
            r is Ok ==> final(self)@ == (PublisherVerificationState {
                publishers: old(self)@.publishers.insert(
                    publisher,
                    Publisher {
                        owner: publisher,
                        status: VerificationStatus::Pending,
                        tier: PublisherTier::Bronze,
                        domain,
                        reputation_score: 0,
                        total_earnings: 0,
                        total_impressions: 0,
                        join_ledger: ledger.sequence,
                        verified_at: None,
                        last_active: ledger.timestamp,
                    },
                ),
                domain_owners: old(self)@.domain_owners.insert(domain@, publisher),
                publisher_count: (old(self)@.publisher_count + 1) as u64,
                ..old(self)@
            }),
    {
        if !auth.check(publisher) {
            return Err(Error::AuthRequired);
        }
        if self.publishers.contains_key(&publisher) {
            return Err(Error::AlreadyRegistered);
        }
        if self.domain_owners.contains_key(domain.as_str()) {
            return Err(Error::DomainAlreadyRegistered);
        }
        if self.publisher_count == u64::MAX {
            return Err(Error::Overflow);
        }
        self.domain_owners.insert(domain.clone(), publisher);
        let data = Publisher {
            owner: publisher,
            status: VerificationStatus::Pending,
            tier: PublisherTier::Bronze,
            domain,
            reputation_score: 0,
            total_earnings: 0,
            total_impressions: 0,
            join_ledger: ledger.sequence,
            verified_at: None,
            last_active: ledger.timestamp,
        };
        self.publishers.insert(publisher, data);
        self.publisher_count = self.publisher_count + 1;
        Ok(())
    }

    /// Records a registered publisher's KYC submission, unverified.
    pub fn submit_kyc(
        &mut self,
        auth: &Auth,
        ledger: &Ledger,
        publisher: u64,
        kyc_hash: String,
        kyc_provider: String,
    ) -> (r: Result<(), Error>)
        requires
            old(self)@.wf(),
        ensures
            final(self)@.wf(),
            r == crate::common::outcome(
                if !auth.authorizes(publisher) {
                    Some(Error::AuthRequired)
                } else if !old(self)@.publishers.contains_key(publisher) {
                    Some(Error::NotRegistered)
                } else {
                    None
                },
                (),
            ),
            r is Err ==> final(self)@ == old(self)@,
            r is Ok ==> final(self)@ == (PublisherVerificationState {
                kyc: old(self)@.kyc.insert(
                    publisher,
                    KycRecord {
                        publisher,
                        kyc_hash,
                        kyc_provider,
                        verified: false,
                        submitted_at: ledger.timestamp,
                        verified_at: None,
                    },
                ),
                ..old(self)@
            }),
    {
        if !auth.check(publisher) {
            return Err(Error::AuthRequired);
        }
        if !self.publishers.contains_key(&publisher) {
            return Err(Error::NotRegistered);
        }
        let record = KycRecord {
            publisher,
            kyc_hash,
            kyc_provider,
            verified: false,
            submitted_at: ledger.timestamp,
            verified_at: None,
        };
        self.kyc.insert(publisher, record);
        Ok(())
    }

    /// Verifies a publisher in `initial_tier` with a reputation of 100, and
    /// marks its KYC submission, if any, verified; only the administrator may.
    pub fn verify_publisher(
        &mut self,
        auth: &Auth,
        ledger: &Ledger,
        admin: u64,
        publisher: u64,
        initial_tier: PublisherTier,
    ) -> (r: Result<(), Error>)
        requires
            old(self)@.wf(),
        ensures
            final(self)@.wf(),
            r == crate::common::outcome(old(self)@.admin_publisher_error(*auth, admin, publisher), ()),
            r is Err ==> final(self)@ == old(self)@,
            r is Ok ==> final(self)@ == (PublisherVerificationState {
                publishers: old(self)@.publishers.insert(
                    publisher,
                    Publisher {
                        status: VerificationStatus::Verified,
                        tier: initial_tier,
                        verified_at: Some(ledger.timestamp),
                        reputation_score: 100,
                        ..old(self)@.publishers[publisher]
                    },
                ),
                kyc: if old(self)@.kyc.contains_key(publisher) {
                    old(self)@.kyc.insert(
                        publisher,
                        KycRecord {
                            verified: true,
                            verified_at: Some(ledger.timestamp),
                            ..old(self)@.kyc[publisher]
                        },
                    )
                } else {
                    old(self)@.kyc
                },
                ..old(self)@
            }),
    {
        match self.check_admin(auth, admin) {
            Ok(()) => {},
            Err(e) => {
                return Err(e);
            },
        }
        let mut data = match self.publishers.remove(&publisher) {
            Some(p) => p,
            None => {
                assert(self.publishers@ =~= old(self).publishers@);
                return Err(Error::PublisherNotFound);
            },
        };
        data.status = VerificationStatus::Verified;
        data.tier = initial_tier;
        data.verified_at = Some(ledger.timestamp);
        data.reputation_score = 100;
        self.publishers.insert(publisher, data);
        assert(self.publishers@ =~= old(self).publishers@.insert(publisher, data));
        match self.kyc.remove(&publisher) {
            Some(mut k) => {
                k.verified = true;
                k.verified_at = Some(ledger.timestamp);
                self.kyc.insert(publisher, k);
                assert(self.kyc@ =~= old(self).kyc@.insert(publisher, k));
            },
            None => {
                assert(self.kyc@ =~= old(self).kyc@);
            },
        }
        Ok(())
    }

    /// Suspends a publisher; only the administrator may.
    pub fn suspend_publisher(&mut self, auth: &Auth, admin: u64, publisher: u64) -> (r: Result<(), Error>)
        requires
            old(self)@.wf(),
        ensures
            final(self)@.wf(),
            r == crate::common::outcome(old(self)@.admin_publisher_error(*auth, admin, publisher), ()),
            r is Err ==> final(self)@ == old(self)@,
            r is Ok ==> final(self)@ == (PublisherVerificationState {
                publishers: old(self)@.publishers.insert(
                    publisher,
                    Publisher { status: VerificationStatus::Suspended, ..old(self)@.publishers[publisher] },
                ),
                ..old(self)@
            }),
    {
        match self.check_admin(auth, admin) {
            Ok(()) => {},
            Err(e) => {
                return Err(e);
            },
        }
        let mut data = match self.publishers.remove(&publisher) {
            Some(p) => p,
            None => {
                assert(self.publishers@ =~= old(self).publishers@);
                return Err(Error::PublisherNotFound);
            },
        };
        data.status = VerificationStatus::Suspended;
        self.publishers.insert(publisher, data);
        assert(self.publishers@ =~= old(self).publishers@.insert(publisher, data));
        Ok(())
    }

    /// Sets a publisher's reputation score, at most 1000, and the tier it
    /// earns; only the administrator may.
    pub fn update_reputation(&mut self, auth: &Auth, admin: u64, publisher: u64, score: u32) -> (r: Result<
        (),
        Error,
    >)
        requires
            old(self)@.wf(),
        ensures
            final(self)@.wf(),
            r == crate::common::outcome(
                match old(self)@.admin_error(*auth, admin) {
                    Some(e) => Some(e),
                    None => if score > 1000 {
                        Some(Error::InvalidScore)
                    } else if !old(self)@.publishers.contains_key(publisher) {
                        Some(Error::PublisherNotFound)
                    } else {
                        None
                    },
                },
                (),
            ),
            r is Err ==> final(self)@ == old(self)@,
            r is Ok ==> final(self)@ == (PublisherVerificationState {
                publishers: old(self)@.publishers.insert(
                    publisher,
                    Publisher { reputation_score: score, tier: tier_for(score), ..old(self)@.publishers[publisher] },
                ),
                ..old(self)@
            }),
    {
        match self.check_admin(auth, admin) {
            Ok(()) => {},
            Err(e) => {
                return Err(e);
            },
        }
        if score > 1000 {
            return Err(Error::InvalidScore);
        }
        let mut data = match self.publishers.remove(&publisher) {
            Some(p) => p,
            None => {
                assert(self.publishers@ =~= old(self).publishers@);
                return Err(Error::PublisherNotFound);
            },
        };
        data.reputation_score = score;
        data.tier = Self::_score_to_tier(score);
        self.publishers.insert(publisher, data);
        assert(self.publishers@ =~= old(self).publishers@.insert(publisher, data));
        Ok(())
    }

    /// Counts an impression and its earning for a verified publisher.
    pub fn record_impression(&mut self, ledger: &Ledger, _caller: u64, publisher: u64, earning: i128) -> (r: Result<
        (),
        Error,
    >)
        requires
            old(self)@.wf(),
        ensures
            final(self)@.wf(),
            ({
                let p = old(self)@.publishers[publisher];
                r == crate::common::outcome(
                    if !old(self)@.publishers.contains_key(publisher) {
                        Some(Error::PublisherNotFound)
                    } else if p.status != VerificationStatus::Verified {
                        Some(Error::PublisherNotVerified)
                    } else if !fits_i128(p.total_earnings + earning) || p.total_impressions == u64::MAX {
                        Some(Error::Overflow)
                    } else {
                        None
                    },
                    (),
                )
            }),
            r is Err ==> final(self)@ == old(self)@,
            r is Ok ==> final(self)@ == (PublisherVerificationState {
                publishers: old(self)@.publishers.insert(
                    publisher,
                    Publisher {
                        total_earnings: (old(self)@.publishers[publisher].total_earnings + earning) as i128,
                        total_impressions: (old(self)@.publishers[publisher].total_impressions + 1) as u64,
                        last_active: ledger.timestamp,
                        ..old(self)@.publishers[publisher]
                    },
                ),
                ..old(self)@
            }),
    {
        let mut data = match self.publishers.remove(&publisher) {
            Some(p) => p,
            None => {
                assert(self.publishers@ =~= old(self).publishers@);
                return Err(Error::PublisherNotFound);
            },
        };
        let err = if data.status != VerificationStatus::Verified {
            Some(Error::PublisherNotVerified)
        } else if data.total_earnings.checked_add(earning).is_none() || data.total_impressions == u64::MAX {
            Some(Error::Overflow)
        } else {
            None
        };
        match err {
            Some(e) => {
                self.publishers.insert(publisher, data);
                assert(self.publishers@ =~= old(self).publishers@);
                return Err(e);
            },
            None => {},
        }
        data.total_earnings = data.total_earnings + earning;
        data.total_impressions = data.total_impressions + 1;
        data.last_active = ledger.timestamp;
        self.publishers.insert(publisher, data);
        assert(self.publishers@ =~= old(self).publishers@.insert(publisher, data));
        Ok(())
    }

    /// A publisher, if registered.
    pub fn get_publisher(&self, publisher: u64) -> (r: Option<&Publisher>)
        ensures
            match r {
                Some(p) => self@.publishers.contains_key(publisher) && *p == self@.publishers[publisher],
                None => !self@.publishers.contains_key(publisher),
            },
    {
        self.publishers.get(&publisher)
    }

    /// A publisher's KYC submission, if any.
    pub fn get_kyc(&self, publisher: u64) -> (r: Option<&KycRecord>)
        ensures
            match r {
                Some(k) => self@.kyc.contains_key(publisher) && *k == self@.kyc[publisher],
                None => !self@.kyc.contains_key(publisher),
            },
    {
        self.kyc.get(&publisher)
    }

    /// Whether a publisher is verified.
    pub fn is_verified(&self, publisher: u64) -> (r: bool)
        ensures
            r == (self@.publishers.contains_key(publisher) && self@.publishers[publisher].status
                == VerificationStatus::Verified),
    {
        match self.publishers.get(&publisher) {
            Some(p) => p.status == VerificationStatus::Verified,
            None => false,
        }
    }

    /// The publisher that holds a domain, if any.
    pub fn get_domain_owner(&self, domain: &str) -> (r: Option<u64>)
        ensures
            r == (if self@.domain_owners.contains_key(domain@) {
                Some(self@.domain_owners[domain@])
            } else {
                None::<u64>
            }),
    {
        match self.domain_owners.get(domain) {
            Some(o) => Some(*o),
            None => None,
        }
    }

    /// The number of registered publishers.
    pub fn get_publisher_count(&self) -> (r: u64)
        ensures
            r == self@.publisher_count,
    {
        self.publisher_count
    }

    /// The tier a reputation score earns.
    pub fn _score_to_tier(score: u32) -> (r: PublisherTier)
        ensures
            r == tier_for(score),
    {
        if score >= 800 {
            PublisherTier::Platinum
        } else if score >= 500 {
            PublisherTier::Gold
        } else if score >= 200 {
            PublisherTier::Silver
        } else {
            PublisherTier::Bronze
        }
    }
}

/// A domain has one holder: two registered publishers never share a domain.
pub proof fn lemma_domains_unique(s: PublisherVerificationState, p: u64, q: u64)
    requires
        s.wf(),
        s.publishers.contains_key(p),
        s.publishers.contains_key(q),
        p != q,
    ensures
        s.publishers[p].domain@ != s.publishers[q].domain@,
{
}

/// Reputation scores stay between 0 and 1000.
pub proof fn lemma_score_in_range(s: PublisherVerificationState, p: u64)
    requires
        s.wf(),
        s.publishers.contains_key(p),
    ensures
        s.publishers[p].reputation_score <= 1000,
{
}

/// A higher reputation score never earns a lower tier.
pub proof fn lemma_tier_monotone(a: u32, b: u32)
    requires
        a <= b,
    ensures
        tier_level(tier_for(a)) <= tier_level(tier_for(b)),
{
}


/// The tiers' thresholds: a score of 800 or more earns Platinum, 500 to 799
/// Gold, 200 to 499 Silver, and less Bronze.
pub proof fn lemma_tier_thresholds(score: u32)
    ensures
        (tier_for(score) == PublisherTier::Platinum) == (score >= 800),
        (tier_for(score) == PublisherTier::Gold) == (500 <= score < 800),
        (tier_for(score) == PublisherTier::Silver) == (200 <= score < 500),
        (tier_for(score) == PublisherTier::Bronze) == (score < 200),
{
}

} // verus!
