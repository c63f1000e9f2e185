//! Fraud prevention for ad views: rate-limits viewers, refuses a campaign's
//! view once it has been recorded, scores views, keeps daily verification
//! statistics, and suspends publishers flagged too often.
use vstd::prelude::*;
use std::collections::BTreeMap;
use crate::common::{Auth, Error, Ledger};

verus! {

/// A recorded view.
#[derive(Clone, Copy, PartialEq, Eq, Structural, Debug)]
pub struct ViewRecord {
    pub campaign_id: u64,
    pub publisher: u64,
    pub viewer: u64,
    pub timestamp: u64,
    pub verification_score: u32,
    pub verified: bool,
}

/// How often a publisher has been flagged.
#[derive(Clone, Copy, PartialEq, Eq, Structural, Debug)]
pub struct SuspiciousActivity {
    pub suspicious_views: u64,
    pub last_flagged: u64,
    pub total_flags: u64,
    pub suspended: bool,
}

/// A campaign's verification statistics for one day.
#[derive(Clone, Copy, PartialEq, Eq, Structural, Debug)]
pub struct VerificationCache {
    pub total_views: u64,
    pub verified_views: u64,
    pub rejected_views: u64,
    pub average_score: u32,
}

/// The campaign-lifecycle contract that a fraud finding may pause campaigns in.
pub struct CampaignLifecycleContract;

/// The publisher-network contract that suspensions are reported to.
pub struct PublisherNetworkContract;

/// The escrow-vault contract that may hold funds on a fraud finding.
pub struct EscrowVaultContract;

/// A request to the publisher network to suspend a publisher.
#[derive(Clone, Copy, PartialEq, Eq, Structural, Debug)]
pub struct SuspendRequest {
    /// The publisher-network contract to call.
    pub network: u64,
    pub publisher: u64,
}

/// The SHA-256 digest of `data`.
pub uninterp spec fn sha256_digest(data: Seq<u8>) -> Seq<u8>;

/// Hashes `data` with the host's SHA-256 (`soroban_sdk::crypto::Crypto::sha256`),
/// in an environment of its own. Claimed: the result is the digest of `data`
/// and nothing else; that SHA-256 is what the host computes is not proved here.
#[verifier::external_body]
fn sha256(data: &[u8; 32]) -> (r: [u8; 32])
    ensures
        r@ == sha256_digest(data@),
{
    let env = soroban_sdk::Env::default();
    let bytes = soroban_sdk::Bytes::from_array(&env, data);
    env.crypto().sha256(&bytes).to_array()
}

/// The big-endian bytes of `x`.
pub open spec fn be_bytes(x: u64) -> Seq<u8> {
    seq![
        (x >> 56u64) as u8,
        (x >> 48u64) as u8,
        (x >> 40u64) as u8,
        (x >> 32u64) as u8,
        (x >> 24u64) as u8,
        (x >> 16u64) as u8,
        (x >> 8u64) as u8,
        x as u8,
    ]
}

/// The bytes from which a view's id is hashed: the big-endian bytes of
/// its campaign, publisher, viewer and timestamp, one after the other.
pub open spec fn view_data_of(campaign_id: u64, publisher: u64, viewer: u64, timestamp: u64) -> Seq<u8> {
    be_bytes(campaign_id) + be_bytes(publisher) + be_bytes(viewer) + be_bytes(timestamp)
}

/// The bytes from which a view's id is hashed.
pub fn view_id_data(campaign_id: u64, publisher: u64, viewer: u64, timestamp: u64) -> (r: [u8; 32])
    ensures
        r@ == view_data_of(campaign_id, publisher, viewer, timestamp),
{
    let r = [
        (campaign_id >> 56u64) as u8,
        (campaign_id >> 48u64) as u8,
        (campaign_id >> 40u64) as u8,
        (campaign_id >> 32u64) as u8,
        (campaign_id >> 24u64) as u8,
        (campaign_id >> 16u64) as u8,
        (campaign_id >> 8u64) as u8,
        campaign_id as u8,
        (publisher >> 56u64) as u8,
        (publisher >> 48u64) as u8,
        (publisher >> 40u64) as u8,
        (publisher >> 32u64) as u8,
        (publisher >> 24u64) as u8,
        (publisher >> 16u64) as u8,
        (publisher >> 8u64) as u8,
        publisher as u8,
        (viewer >> 56u64) as u8,
        (viewer >> 48u64) as u8,
        (viewer >> 40u64) as u8,
        (viewer >> 32u64) as u8,
        (viewer >> 24u64) as u8,
        (viewer >> 16u64) as u8,
        (viewer >> 8u64) as u8,
        viewer as u8,
        (timestamp >> 56u64) as u8,
        (timestamp >> 48u64) as u8,
        (timestamp >> 40u64) as u8,
        (timestamp >> 32u64) as u8,
        (timestamp >> 24u64) as u8,
        (timestamp >> 16u64) as u8,
        (timestamp >> 8u64) as u8,
        timestamp as u8,
    ];
    assert(r@ =~= view_data_of(campaign_id, publisher, viewer, timestamp));
    r
}

/// The id under which a view is recorded: the SHA-256 digest of its
/// campaign, publisher, viewer and timestamp.
pub open spec fn view_id_of(campaign_id: u64, publisher: u64, viewer: u64, timestamp: u64) -> Seq<u8> {
    sha256_digest(view_data_of(campaign_id, publisher, viewer, timestamp))
}

/// A view's score: 80, and 10 more with a proof.
pub open spec fn score_of(has_proof: bool) -> u32 {
    if has_proof {
        90
    } else {
        80
    }
}

/// A day's statistics after one more view, verified or not, with `score`.
pub open spec fn cache_after(c: VerificationCache, verified: bool, score: u32) -> VerificationCache {
    let total = c.total_views + 1;
    VerificationCache {
        total_views: total as u64,
        verified_views: if verified {
            (c.verified_views + 1) as u64
        } else {
            c.verified_views
        },
        rejected_views: if verified {
            c.rejected_views
        } else {
            (c.rejected_views + 1) as u64
        },
        average_score: ((c.average_score * (total - 1) + score) / total) as u32,
    }
}

/// The statistics of a day without views.
pub open spec fn empty_cache() -> VerificationCache {
    VerificationCache { total_views: 0, verified_views: 0, rejected_views: 0, average_score: 0 }
}

/// The contract's storage, as values.
pub struct FraudPreventionState {
    pub admin: Option<u64>,
    pub campaign_lifecycle: Option<u64>,
    pub publisher_network: Option<u64>,
    pub escrow_vault: Option<u64>,
    pub verification_threshold: u32,
    pub max_views_per_period: u64,
    pub suspicious_threshold: u64,
    pub verify_counter: u64,
    /// Recorded views, with their ids, in the order they were recorded.
    pub view_records: Seq<([u8; 32], ViewRecord)>,
    /// Views per viewer and hour.
    pub rate_limits: Map<(u64, u64), u64>,
    pub suspicious: Map<u64, SuspiciousActivity>,
    /// Statistics per campaign and day.
    pub caches: Map<(u64, u64), VerificationCache>,
}

impl FraudPreventionState {
    /// Whether a view with id `id` has been recorded.
    pub open spec fn has_view(self, id: Seq<u8>) -> bool {
        exists|i: int| 0 <= i < self.view_records.len() && #[trigger] self.view_records[i].0@ == id
    }

    /// Views a viewer has had verified in an hour.
    pub open spec fn views_in(self, viewer: u64, period: u64) -> u64 {
        if self.rate_limits.contains_key((viewer, period)) {
            self.rate_limits[(viewer, period)]
        } else {
            0
        }
    }

    /// A campaign's statistics for a day.
    pub open spec fn cache_on(self, campaign_id: u64, day: u64) -> VerificationCache {
        if self.caches.contains_key((campaign_id, day)) {
            self.caches[(campaign_id, day)]
        } else {
            empty_cache()
        }
    }

    /// Why a view of a campaign is refused at `now`, under the id `id`.
    pub open spec fn verify_error_for(
        self,
        now: u64,
        id: Seq<u8>,
        campaign_id: u64,
        viewer: u64,
        has_proof: bool,
    ) -> Option<Error> {
        let c = self.cache_on(campaign_id, now / 86_400);
        let score = score_of(has_proof);
        if self.views_in(viewer, now / 3600) >= self.max_views_per_period {
            Some(Error::RateLimitExceeded)
        } else if self.has_view(id) {
            Some(Error::DuplicateView)
        } else if c.total_views == u64::MAX || (score >= self.verification_threshold && c.verified_views
            == u64::MAX) || (score < self.verification_threshold && c.rejected_views == u64::MAX)
            || c.average_score * c.total_views > u64::MAX || c.average_score * c.total_views + score
            > u64::MAX || (score >= self.verification_threshold && self.verify_counter == u64::MAX) {
            Some(Error::Overflow)
        } else if score < self.verification_threshold {
            Some(Error::VerificationFailed)
        } else {
            None
        }
    }

    /// Why a view of a campaign by `viewer` through `publisher` is refused
    /// at `now`.
    pub open spec fn verify_view_error(
        self,
        now: u64,
        campaign_id: u64,
        publisher: u64,
        viewer: u64,
        has_proof: bool,
    ) -> Option<Error> {
        self.verify_error_for(now, view_id_of(campaign_id, publisher, viewer, now), campaign_id, viewer, has_proof)
    }

    /// The storage after a view is verified and recorded under `id` at `now`.
    pub open spec fn after_verify(
        self,
        now: u64,
        id: [u8; 32],
        campaign_id: u64,
        publisher: u64,
        viewer: u64,
        has_proof: bool,
    ) -> Self {
        let score = score_of(has_proof);
        FraudPreventionState {
            view_records: self.view_records.push(
                (
                    id,
                    ViewRecord {
                        campaign_id,
                        publisher,
                        viewer,
                        timestamp: now,
                        verification_score: score,
                        verified: true,
                    },
                ),
            ),
            rate_limits: self.rate_limits.insert((viewer, now / 3600), (self.views_in(viewer, now / 3600) + 1) as u64),
            caches: self.caches.insert(
                (campaign_id, now / 86_400),
                cache_after(self.cache_on(campaign_id, now / 86_400), true, score),
            ),
            verify_counter: (self.verify_counter + 1) as u64,
            ..self
        }
    }

    pub open spec fn admin_error(self, auth: Auth, admin: u64) -> Option<Error> {
        if !auth.authorizes(admin) {
            Some(Error::AuthRequired)
        } else if self.admin is None {
            Some(Error::NotInitialized)
        } else if self.admin != Some(admin) {
            Some(Error::Unauthorized)
        } else {
            None
        }
    }

    /// A publisher's flag record, or the empty record it starts from.
    pub open spec fn activity_of(self, publisher: u64) -> SuspiciousActivity {
        if self.suspicious.contains_key(publisher) {
            self.suspicious[publisher]
        } else {
            SuspiciousActivity { suspicious_views: 0, last_flagged: 0, total_flags: 0, suspended: false }
        }
    }
}

/// The fraud-prevention contract.
pub struct FraudPreventionContract {
    admin: Option<u64>,
    campaign_lifecycle: Option<u64>,
    publisher_network: Option<u64>,
    escrow_vault: Option<u64>,
    verification_threshold: u32,
    max_views_per_period: u64,
    suspicious_threshold: u64,
    verify_counter: u64,
    view_records: Vec<([u8; 32], ViewRecord)>,
    rate_limits: BTreeMap<(u64, u64), u64>,
    suspicious: BTreeMap<u64, SuspiciousActivity>,
    caches: BTreeMap<(u64, u64), VerificationCache>,
}

impl View for FraudPreventionContract {
    type V = FraudPreventionState;

    closed spec fn view(&self) -> FraudPreventionState {
        FraudPreventionState {
            admin: self.admin,
            campaign_lifecycle: self.campaign_lifecycle,
            publisher_network: self.publisher_network,
            escrow_vault: self.escrow_vault,
            verification_threshold: self.verification_threshold,
            max_views_per_period: self.max_views_per_period,
            suspicious_threshold: self.suspicious_threshold,
            verify_counter: self.verify_counter,
            view_records: self.view_records@,
            rate_limits: self.rate_limits@,
            suspicious: self.suspicious@,
            caches: self.caches@,
        }
    }
}

fn same_id(a: &[u8; 32], b: &[u8; 32]) -> (r: bool)
    ensures
        r == (a@ == b@),
{
    let mut i: usize = 0;
    while i < 32
        invariant
            0 <= i <= 32,
            a@.len() == 32,
            b@.len() == 32,
            forall|j: int| 0 <= j < i ==> a@[j] == b@[j],
        decreases 32 - i,
    {
        if a[i] != b[i] {
            return false;
        }
        i = i + 1;
    }
    assert(a@ =~= b@);
    true
}

impl FraudPreventionContract {
    /// A contract with empty storage; the thresholds read as their defaults
    /// (80, 10 views an hour, 100 flags) until set.
    pub fn new() -> (c: Self)
        ensures
            c@ == (FraudPreventionState {
                admin: None,
                campaign_lifecycle: None,
                publisher_network: None,
                escrow_vault: None,
                verification_threshold: 80,
                max_views_per_period: 10,
                suspicious_threshold: 100,
                verify_counter: 0,
                view_records: Seq::empty(),
                rate_limits: Map::empty(),
                suspicious: Map::empty(),
                caches: Map::empty(),
            }),
    {
        FraudPreventionContract {
            admin: None,
            campaign_lifecycle: None,
            publisher_network: None,
            escrow_vault: None,
            verification_threshold: 80,
            max_views_per_period: 10,
            suspicious_threshold: 100,
            verify_counter: 0,
            view_records: Vec::new(),
            rate_limits: BTreeMap::new(),
            suspicious: BTreeMap::new(),
            caches: BTreeMap::new(),
        }
    }

    /// Stores the administrator and the default thresholds: a score of 80,
    /// 10 views per viewer an hour, and 100 flags before a suspension.
    pub fn initialize(&mut self, auth: &Auth, admin: u64) -> (r: Result<(), Error>)
        ensures
            r == crate::common::outcome(
                if old(self)@.admin is Some {
                    Some(Error::AlreadyInitialized)
                } else if !auth.authorizes(admin) {
                    Some(Error::AuthRequired)
                } else {
                    None
                },
                (),
            ),
            r is Err ==> final(self)@ == old(self)@,
            r is Ok ==> final(self)@ == (FraudPreventionState {
                admin: Some(admin),
                verification_threshold: 80,
                max_views_per_period: 10,
                suspicious_threshold: 100,
                verify_counter: 0,
                ..old(self)@
            }),
    {
        if self.admin.is_some() {
            return Err(Error::AlreadyInitialized);
        }
        if !auth.check(admin) {
            return Err(Error::AuthRequired);
        }
        self.admin = Some(admin);
        self.verification_threshold = 80;
        self.max_views_per_period = 10;
        self.suspicious_threshold = 100;
        self.verify_counter = 0;
        Ok(())
    }

    fn check_admin(&self, auth: &Auth, admin: u64) -> (r: Result<(), Error>)
        ensures
            r == crate::common::outcome(self@.admin_error(*auth, admin), ()),
    {
        if !auth.check(admin) {
            return Err(Error::AuthRequired);
        }
        match self.admin {
            None => Err(Error::NotInitialized),
            Some(a) => if a != admin {
                Err(Error::Unauthorized)
            } else {
                Ok(())
            },
        }
    }

    /// Records the contracts that fraud findings are reported to; only the
    /// administrator may.
    pub fn set_dependent_contracts(
        &mut self,
        auth: &Auth,
        admin: u64,
        lifecycle: u64,
        network: u64,
        vault: u64,
    ) -> (r: Result<(), Error>)
        ensures
            r == crate::common::outcome(old(self)@.admin_error(*auth, admin), ()),
            r is Err ==> final(self)@ == old(self)@,
            r is Ok ==> final(self)@ == (FraudPreventionState {
                campaign_lifecycle: Some(lifecycle),
                publisher_network: Some(network),
                escrow_vault: Some(vault),
                ..old(self)@
            }),
    {
        match self.check_admin(auth, admin) {
            Ok(()) => {},
            Err(e) => {
                return Err(e);
            },
        }
        self.campaign_lifecycle = Some(lifecycle);
        self.publisher_network = Some(network);
        self.escrow_vault = Some(vault);
        Ok(())
    }

    fn has_view(&self, id: &[u8; 32]) -> (r: bool)
        ensures
            r == self@.has_view(id@),
    {
        let mut i: usize = 0;
        while i < self.view_records.len()
            invariant
                0 <= i <= self.view_records.len(),
                forall|j: int| 0 <= j < i ==> self.view_records@[j].0@ != id@,
            decreases self.view_records.len() - i,
        {
            if same_id(&self.view_records[i].0, id) {
                assert(self@.view_records[i as int].0@ == id@);
                return true;
            }
            i = i + 1;
        }
        false
    }

    /// The id under which a view is recorded: the hash of its campaign,
    /// publisher, viewer and timestamp.
    fn _generate_view_id(campaign_id: u64, publisher: u64, viewer: u64, timestamp: u64) -> (r: [u8; 32])
        ensures
            r@ == view_id_of(campaign_id, publisher, viewer, timestamp),
    {
        sha256(&view_id_data(campaign_id, publisher, viewer, timestamp))
    }

    /// A view's score: a base of 80, and a bonus of 10 with a proof.
    fn _calculate_score(proof_data: &Option<[u8; 32]>) -> (r: u32)
        ensures
            r == score_of(proof_data is Some),
    {
        let base_score: u32 = 80;
        let proof_bonus: u32 = if proof_data.is_some() {
            10
        } else {
            0
        };
        base_score + proof_bonus
    }

    /// Verifies a view of a campaign: the viewer must be under the hourly
    /// limit, and no view with the same campaign, publisher, viewer and
    /// timestamp may have been recorded. The view scores 80, or 90 with a
    /// proof; a score under the threshold is refused. A verified view is
    /// recorded, counted against the viewer's hour, in the campaign's
    /// statistics for the day, and in the total.
    pub fn verify_view(
        &mut self,
        ledger: &Ledger,
        campaign_id: u64,
        publisher: u64,
        viewer: u64,
        proof_data: Option<[u8; 32]>,
    ) -> (r: Result<bool, Error>)
        ensures
            match old(self)@.verify_view_error(ledger.timestamp, campaign_id, publisher, viewer, proof_data is Some) {
                Some(e) => r == Err::<bool, Error>(e) && final(self)@ == old(self)@,
                None => {
                    &&& r == Ok::<bool, Error>(true)
                    &&& final(self)@.view_records.last().0@ == view_id_of(
                        campaign_id,
                        publisher,
                        viewer,
                        ledger.timestamp,
                    )
                    &&& final(self)@ == old(self)@.after_verify(
                        ledger.timestamp,
                        final(self)@.view_records.last().0,
                        campaign_id,
                        publisher,
                        viewer,
                        proof_data is Some,
                    )
                },
            },
    {
        let view_id = Self::_generate_view_id(campaign_id, publisher, viewer, ledger.timestamp);
        let r = self.verify_view_with_id(ledger, view_id, campaign_id, publisher, viewer, proof_data);
        proof {
            if r is Ok {
                assert(self@.view_records.last().0 == view_id);
            }
        }
        r
    }

    /// Verifies a view under a given id, as `verify_view` does with the id
    /// it computes: refused if a view with the same id was recorded.
    pub fn verify_view_with_id(
        &mut self,
        ledger: &Ledger,
        view_id: [u8; 32],
        campaign_id: u64,
        publisher: u64,
        viewer: u64,
        proof_data: Option<[u8; 32]>,
    ) -> (r: Result<bool, Error>)
        ensures
            match old(self)@.verify_error_for(ledger.timestamp, view_id@, campaign_id, viewer, proof_data is Some) {
                Some(e) => r == Err::<bool, Error>(e) && final(self)@ == old(self)@,
                None => {
                    &&& r == Ok::<bool, Error>(true)
                    &&& final(self)@ == old(self)@.after_verify(
                        ledger.timestamp,
                        view_id,
                        campaign_id,
                        publisher,
                        viewer,
                        proof_data is Some,
                    )
                },
            },
    {
        let now = ledger.timestamp;
        let current_period = now / 3600;
        let view_count: u64 = match self.rate_limits.get(&(viewer, current_period)) {
            Some(c) => *c,
            None => 0,
        };
        if view_count >= self.max_views_per_period {
            return Err(Error::RateLimitExceeded);
        }
        if self.has_view(&view_id) {
            return Err(Error::DuplicateView);
        }
        let score = Self::_calculate_score(&proof_data);
        let verified = score >= self.verification_threshold;
        let current_day = now / 86_400;
        let mut cache = match self.caches.get(&(campaign_id, current_day)) {
            Some(c) => *c,
            None => VerificationCache { total_views: 0, verified_views: 0, rejected_views: 0, average_score: 0 },
        };
        if cache.total_views == u64::MAX {
            return Err(Error::Overflow);
        }
        let total = cache.total_views + 1;
        if verified {
            if cache.verified_views == u64::MAX {
                return Err(Error::Overflow);
            }
            cache.verified_views = cache.verified_views + 1;
        } else {
            if cache.rejected_views == u64::MAX {
                return Err(Error::Overflow);
            }
            cache.rejected_views = cache.rejected_views + 1;
        }
        let weighted = match (cache.average_score as u64).checked_mul(cache.total_views) {
            Some(x) => x,
            None => {
                return Err(Error::Overflow);
            },
        };
        let sum = match weighted.checked_add(score as u64) {
            Some(x) => x,
            None => {
                return Err(Error::Overflow);
            },
        };
        cache.total_views = total;
        cache.average_score = #[verifier::truncate] ((sum / total) as u32);
        if verified && self.verify_counter == u64::MAX {
            return Err(Error::Overflow);
        }
        if !verified {
            return Err(Error::VerificationFailed);
        }
        let record = ViewRecord {
            campaign_id,
            publisher,
            viewer,
            timestamp: now,
            verification_score: score,
            verified,
        };
        self.view_records.push((view_id, record));
        self.rate_limits.insert((viewer, current_period), view_count + 1);
        self.caches.insert((campaign_id, current_day), cache);
        self.verify_counter = self.verify_counter + 1;
        proof {
            assert(self.view_records@ == old(self).view_records@.push((view_id, record)));
        }
        Ok(true)
    }

    /// Flags a publisher once more; past the threshold the publisher is
    /// suspended, and the publisher network, if known, is asked to suspend it.
    pub fn flag_suspicious(&mut self, ledger: &Ledger, publisher: u64) -> (r: Result<Option<SuspendRequest>, Error>)
        ensures
            ({
                let a = old(self)@.activity_of(publisher);
                if a.suspicious_views == u64::MAX || a.total_flags == u64::MAX {
                    r == Err::<Option<SuspendRequest>, Error>(Error::Overflow) && final(self)@ == old(self)@
                } else {
                    let views = (a.suspicious_views + 1) as u64;
                    let suspend = views > old(self)@.suspicious_threshold;
                    &&& r == Ok::<Option<SuspendRequest>, Error>(
                        if suspend && old(self)@.publisher_network is Some {
                            Some(SuspendRequest { network: old(self)@.publisher_network.unwrap(), publisher })
                        } else {
                            None
                        },
                    )
                    &&& final(self)@ == FraudPreventionState {
                        suspicious: old(self)@.suspicious.insert(
                            publisher,
                            SuspiciousActivity {
                                suspicious_views: views,
                                total_flags: (a.total_flags + 1) as u64,
                                last_flagged: ledger.timestamp,
                                suspended: if suspend {
                                    true
                                } else {
                                    a.suspended
                                },
                            },
                        ),
                        ..old(self)@
                    }
                }
            }),
    {
        let mut activity = match self.suspicious.get(&publisher) {
            Some(a) => *a,
            None => SuspiciousActivity { suspicious_views: 0, last_flagged: 0, total_flags: 0, suspended: false },
        };
        if activity.suspicious_views == u64::MAX || activity.total_flags == u64::MAX {
            return Err(Error::Overflow);
        }
        activity.suspicious_views = activity.suspicious_views + 1;
        activity.total_flags = activity.total_flags + 1;
        activity.last_flagged = ledger.timestamp;
        let mut request: Option<SuspendRequest> = None;
        if activity.suspicious_views > self.suspicious_threshold {
            activity.suspended = true;
            match self.publisher_network {
                Some(network) => {
                    request = Some(SuspendRequest { network, publisher });
                },
                None => {},
            }
        }
        self.suspicious.insert(publisher, activity);
        Ok(request)
    }

    /// Forgets a publisher's flags; only the administrator may.
    pub fn clear_flag(&mut self, auth: &Auth, admin: u64, publisher: u64) -> (r: Result<(), Error>)
        ensures
            r == crate::common::outcome(old(self)@.admin_error(*auth, admin), ()),
            r is Err ==> final(self)@ == old(self)@,
            r is Ok ==> final(self)@ == (FraudPreventionState {
                suspicious: old(self)@.suspicious.remove(publisher),
                ..old(self)@
            }),
    {
        match self.check_admin(auth, admin) {
            Ok(()) => {},
            Err(e) => {
                return Err(e);
            },
        }
        self.suspicious.remove(&publisher);
        Ok(())
    }

    /// Sets the score a view needs, between 50 and 100; only the
    /// administrator may.
    pub fn set_threshold(&mut self, auth: &Auth, admin: u64, threshold: u32) -> (r: Result<(), Error>)
        ensures
            r == crate::common::outcome(
                match old(self)@.admin_error(*auth, admin) {
                    Some(e) => Some(e),
                    None => if threshold < 50 || threshold > 100 {
                        Some(Error::InvalidThreshold)
                    } else {
                        None
                    },
                },
                (),
            ),
            r is Err ==> final(self)@ == old(self)@,
            r is Ok ==> final(self)@ == (FraudPreventionState {
                verification_threshold: threshold,
                ..old(self)@
            }),
    {
        match self.check_admin(auth, admin) {
            Ok(()) => {},
            Err(e) => {
                return Err(e);
            },
        }
        if threshold < 50 || threshold > 100 {
            return Err(Error::InvalidThreshold);
        }
        self.verification_threshold = threshold;
        Ok(())
    }

    /// A campaign's verification statistics for the current day.
    pub fn get_verification_stats(&self, ledger: &Ledger, campaign_id: u64) -> (r: VerificationCache)
        ensures
            r == self@.cache_on(campaign_id, ledger.timestamp / 86_400),
    {
        match self.caches.get(&(campaign_id, ledger.timestamp / 86_400)) {
            Some(c) => *c,
            None => VerificationCache { total_views: 0, verified_views: 0, rejected_views: 0, average_score: 0 },
        }
    }

    /// A publisher's flag record, if flagged.
    pub fn get_suspicious_status(&self, publisher: u64) -> (r: Option<SuspiciousActivity>)
        ensures
            r == (if self@.suspicious.contains_key(publisher) {
                Some(self@.suspicious[publisher])
            } else {
                None::<SuspiciousActivity>
            }),
    {
        match self.suspicious.get(&publisher) {
            Some(a) => Some(*a),
            None => None,
        }
    }

    /// Whether a publisher is suspended.
    pub fn is_publisher_suspended(&self, publisher: u64) -> (r: bool)
        ensures
            r == (self@.suspicious.contains_key(publisher) && self@.suspicious[publisher].suspended),
    {
        match self.suspicious.get(&publisher) {
            Some(a) => a.suspended,
            None => false,
        }
    }

    /// The number of views verified.
    pub fn get_total_verifications(&self) -> (r: u64)
        ensures
            r == self@.verify_counter,
    {
        self.verify_counter
    }
}

/// The daily average score stays within the range of the scores: if the
/// average so far and the new score are at most `m`, so is the new average.
pub proof fn lemma_average_score_bounded(c: VerificationCache, verified: bool, score: u32, m: u32)
    requires
        c.average_score <= m,
        score <= m,
        c.total_views < u64::MAX,
        c.average_score * c.total_views + score <= u64::MAX,
    ensures
        cache_after(c, verified, score).average_score <= m,
{
    let a = c.average_score as int;
    let n = c.total_views as int;
    let s = score as int;
    assert((a * n + s) / (n + 1) <= m) by (nonlinear_arith)
        requires
            0 <= a <= m,
            0 <= s <= m,
            n >= 0,
    {
        assert(a * n <= m * n);
        assert(a * n + s <= m * (n + 1));
    }
}

/// A view is verified at most once: after a view is recorded under an id,
/// a view under the same id is refused, and so is a second view with the
/// same campaign, publisher, viewer and timestamp.
pub proof fn lemma_no_double_count(
    s: FraudPreventionState,
    id: [u8; 32],
    record: ViewRecord,
    now: u64,
    viewer: u64,
    has_proof: bool,
)
    requires
        s.views_in(viewer, now / 3600) < s.max_views_per_period,
    ensures
        (FraudPreventionState { view_records: s.view_records.push((id, record)), ..s }).verify_error_for(
            now,
            id@,
            record.campaign_id,
            viewer,
            has_proof,
        ) == Some(Error::DuplicateView),
        id@ == view_id_of(record.campaign_id, record.publisher, record.viewer, record.timestamp) && viewer
            == record.viewer && now == record.timestamp ==> (FraudPreventionState {
            view_records: s.view_records.push((id, record)),
            ..s
        }).verify_view_error(now, record.campaign_id, record.publisher, viewer, has_proof) == Some(
            Error::DuplicateView,
        ),
{
    let s2 = FraudPreventionState { view_records: s.view_records.push((id, record)), ..s };
    assert(s2.view_records[s.view_records.len() as int].0@ == id@);
}

/// The day's average score is the running average of the views' scores: a
/// new view of score `score` makes it `(average * views + score) / (views
/// + 1)`, rounded down, and counts the view as verified or rejected.
pub proof fn lemma_average_is_running_mean(c: VerificationCache, verified: bool, score: u32)
    requires
        c.total_views < u64::MAX,
        verified ==> c.verified_views < u64::MAX,
        !verified ==> c.rejected_views < u64::MAX,
        c.average_score * c.total_views + score <= u32::MAX * (c.total_views + 1),
    ensures
        cache_after(c, verified, score).total_views == c.total_views + 1,
        cache_after(c, verified, score).average_score == (c.average_score * c.total_views + score) / (c.total_views
            + 1),
        cache_after(c, verified, score).verified_views == (if verified {
            c.verified_views + 1
        } else {
            c.verified_views as int
        }),
        cache_after(c, verified, score).rejected_views == (if verified {
            c.rejected_views as int
        } else {
            c.rejected_views + 1
        }),
{
    let n = c.total_views as int;
    let x = c.average_score * n + score;
    assert(0 <= x / (n + 1) <= u32::MAX) by (nonlinear_arith)
        requires
            0 <= x <= u32::MAX * (n + 1),
            n >= 0,
    ;
}

/// A verified view scores 80, or 90 with a proof, and enters the day's
/// average of its campaign as one more view of that score.
pub proof fn lemma_verified_view_enters_average(
    s: FraudPreventionState,
    now: u64,
    id: [u8; 32],
    campaign_id: u64,
    publisher: u64,
    viewer: u64,
    has_proof: bool,
)
    requires
        s.verify_error_for(now, id@, campaign_id, viewer, has_proof) is None,
    ensures
        ({
            let c = s.cache_on(campaign_id, now / 86_400);
            let score: int = if has_proof { 90 } else { 80 };
            let c2 = s.after_verify(now, id, campaign_id, publisher, viewer, has_proof).cache_on(
                campaign_id,
                now / 86_400,
            );
            &&& c2.total_views == c.total_views + 1
            &&& c2.verified_views == c.verified_views + 1
            &&& c2.average_score == (c.average_score * c.total_views + score) / (c.total_views + 1)
            &&& s.after_verify(now, id, campaign_id, publisher, viewer, has_proof).view_records.last().1.verification_score
                == score
        }),
{
    let c = s.cache_on(campaign_id, now / 86_400);
    let score = score_of(has_proof);
    assert(c.average_score * c.total_views + score <= u64::MAX);
    let n = c.total_views as int;
    let x = c.average_score * n + score;
    assert(x <= u32::MAX * (n + 1)) by (nonlinear_arith)
        requires
            c.average_score <= u32::MAX,
            score <= u32::MAX,
            x == c.average_score * n + score,
            n >= 0,
    ;
    lemma_average_is_running_mean(c, true, score);
}

/// A verified view is recorded as verified, with its campaign, publisher,
/// viewer and moment, under its id; it counts once against the viewer's
/// hour and once in the total of verifications.
pub proof fn lemma_verified_view_recorded(
    s: FraudPreventionState,
    now: u64,
    id: [u8; 32],
    campaign_id: u64,
    publisher: u64,
    viewer: u64,
    has_proof: bool,
)
    requires
        s.verify_error_for(now, id@, campaign_id, viewer, has_proof) is None,
    ensures
        ({
            let s2 = s.after_verify(now, id, campaign_id, publisher, viewer, has_proof);
            let r = s2.view_records.last();
            &&& s2.view_records.len() == s.view_records.len() + 1
            &&& s2.view_records.drop_last() =~= s.view_records
            &&& r.0 == id && r.1.campaign_id == campaign_id && r.1.publisher == publisher && r.1.viewer == viewer
            &&& r.1.timestamp == now && r.1.verified
            &&& s2.views_in(viewer, now / 3600) == s.views_in(viewer, now / 3600) + 1
            &&& s2.verify_counter == s.verify_counter + 1
            &&& s2.has_view(id@)
        }),
{
    let s2 = s.after_verify(now, id, campaign_id, publisher, viewer, has_proof);
    assert(s2.view_records[s.view_records.len() as int].0@ == id@);
}

} // verus!
