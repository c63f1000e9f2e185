//! Targeting configuration for ad campaigns, and match scores of publishers
//! against it computed by authorised oracles.
use vstd::prelude::*;
use std::collections::BTreeMap;
use crate::common::{Auth, Error, Ledger};

verus! {

/// What an advertiser asks of a campaign's audience.
#[derive(Clone, Debug)]
pub struct TargetingParams {
    /// JSON-encoded list of regions.
    pub geographic_targets: String,
    /// Segment ids.
    pub interest_segments: String,
    pub excluded_segments: String,
    pub min_age: u32,
    pub max_age: u32,
    /// Mobile, desktop, tablet.
    pub device_types: String,
    pub languages: String,
    pub min_reputation: u32,
    pub exclude_fraud: bool,
    pub require_kyc: bool,
    pub max_cpm: i128,
}

/// A campaign's targeting configuration.
#[derive(Clone, Debug)]
pub struct TargetingConfig {
    pub campaign_id: u64,
    pub advertiser: u64,
    pub geographic_targets: String,
    pub interest_segments: String,
    pub excluded_segments: String,
    pub min_age: u32,
    pub max_age: u32,
    pub device_types: String,
    pub operating_systems: String,
    pub languages: String,
    pub min_reputation_score: u32,
    pub exclude_fraud: bool,
    pub require_kyc: bool,
    pub max_cpm: i128,
    pub created_at: u64,
    pub last_updated: u64,
}

/// How well a publisher matches a campaign's targeting.
#[derive(Clone, Debug)]
pub struct TargetingScore {
    pub campaign_id: u64,
    pub publisher: u64,
    /// From 0 to 1000; higher is a better match.
    pub score: u32,
    pub match_reasons: String,
    pub computed_at: u64,
}

/// The contract's storage, as values.
pub struct TargetingEngineState {
    pub admin: Option<u64>,
    pub configs: Map<u64, TargetingConfig>,
    /// Scores by campaign and publisher.
    pub scores: Map<(u64, u64), TargetingScore>,
    pub oracles: Map<u64, bool>,
}

impl TargetingEngineState {
    pub open spec fn admin_error(self, auth: Auth, admin: u64) -> Option<Error> {
        if !auth.authorizes(admin) {
            Some(Error::AuthRequired)
        } else if self.admin is None {
            Some(Error::NotInitialized)
        } else if self.admin != Some(admin) {
            Some(Error::Unauthorized)
        } else {
            None
        }
    }
}

/// The targeting-engine contract.
pub struct TargetingEngineContract {
    admin: Option<u64>,
    configs: BTreeMap<u64, TargetingConfig>,
    scores: BTreeMap<(u64, u64), TargetingScore>,
    oracles: BTreeMap<u64, bool>,
}

impl View for TargetingEngineContract {
    type V = TargetingEngineState;

    closed spec fn view(&self) -> TargetingEngineState {
        TargetingEngineState {
            admin: self.admin,
            configs: self.configs@,
            scores: self.scores@,
            oracles: self.oracles@,
        }
    }
}

impl TargetingEngineContract {
    /// A contract with empty storage.
    pub fn new() -> (c: Self)
        ensures
            c@ == (TargetingEngineState {
                admin: None,
                configs: Map::empty(),
                scores: Map::empty(),
                oracles: Map::empty(),
            }),
    {
        TargetingEngineContract {
            admin: None,
            configs: BTreeMap::new(),
            scores: BTreeMap::new(),
            oracles: BTreeMap::new(),
        }
    }

    /// Stores the administrator.
    pub fn initialize(&mut self, auth: &Auth, admin: u64) -> (r: Result<(), Error>)
        ensures
            r == crate::common::outcome(
                if old(self)@.admin is Some {
                    Some(Error::AlreadyInitialized)
                } else if !auth.authorizes(admin) {
                    Some(Error::AuthRequired)
                } else {
                    None
                },
                (),
            ),
            r is Err ==> final(self)@ == old(self)@,
            r is Ok ==> final(self)@ == (TargetingEngineState { admin: Some(admin), ..old(self)@ }),
    {
        if self.admin.is_some() {
            return Err(Error::AlreadyInitialized);
        }
        if !auth.check(admin) {
            return Err(Error::AuthRequired);
        }
        self.admin = Some(admin);
        Ok(())
    }

    fn check_admin(&self, auth: &Auth, admin: u64) -> (r: Result<(), Error>)
        ensures
            r == crate::common::outcome(self@.admin_error(*auth, admin), ()),
    {
        if !auth.check(admin) {
            return Err(Error::AuthRequired);
        }
        match self.admin {
            None => Err(Error::NotInitialized),
            Some(a) => if a != admin {
                Err(Error::Unauthorized)
            } else {
                Ok(())
            },
        }
    }

    /// Authorises an oracle to compute scores; only the administrator may.
    pub fn add_oracle(&mut self, auth: &Auth, admin: u64, oracle: u64) -> (r: Result<(), Error>)
        ensures
            r == crate::common::outcome(old(self)@.admin_error(*auth, admin), ()),
            r is Err ==> final(self)@ == old(self)@,
            r is Ok ==> final(self)@ == (TargetingEngineState {
                oracles: old(self)@.oracles.insert(oracle, true),
                ..old(self)@
            }),
    {
        match self.check_admin(auth, admin) {
            Ok(()) => {},
            Err(e) => {
                return Err(e);
            },
        }
        self.oracles.insert(oracle, true);
        Ok(())
    }

    /// Withdraws an oracle's authorisation; only the administrator may.
    pub fn remove_oracle(&mut self, auth: &Auth, admin: u64, oracle: u64) -> (r: Result<(), Error>)
        ensures
            r == crate::common::outcome(old(self)@.admin_error(*auth, admin), ()),
            r is Err ==> final(self)@ == old(self)@,
            r is Ok ==> final(self)@ == (TargetingEngineState {
                oracles: old(self)@.oracles.remove(oracle),
                ..old(self)@
            }),
    {
        match self.check_admin(auth, admin) {
            Ok(()) => {},
            Err(e) => {
                return Err(e);
            },
        }
        self.oracles.remove(&oracle);
        Ok(())
    }

    /// Sets a campaign's targeting, with an age range that is not inverted;
    /// any advertiser may, and replaces what was there.
    pub fn set_targeting(
        &mut self,
        auth: &Auth,
        ledger: &Ledger,
        advertiser: u64,
        campaign_id: u64,
        params: TargetingParams,
    ) -> (r: Result<(), Error>)
        ensures
            r == crate::common::outcome(
                if !auth.authorizes(advertiser) {
                    Some(Error::AuthRequired)
                } else if params.min_age > params.max_age {
                    Some(Error::InvalidAgeRange)
                } else {
                    None
                },
                (),
            ),
            r is Err ==> final(self)@ == old(self)@,
            r is Ok ==> {
                &&& final(self)@ == TargetingEngineState {
                    configs: final(self)@.configs,
                    ..old(self)@
                }
                &&& final(self)@.configs.dom() == old(self)@.configs.dom().insert(campaign_id)
                &&& forall|c: u64| c != campaign_id && #[trigger] old(self)@.configs.contains_key(c)
                    ==> final(self)@.configs[c] == old(self)@.configs[c]
                &&& final(self)@.configs[campaign_id] == TargetingConfig {
                    campaign_id,
                    advertiser,
                    geographic_targets: params.geographic_targets,
                    interest_segments: params.interest_segments,
                    excluded_segments: params.excluded_segments,
                    min_age: params.min_age,
                    max_age: params.max_age,
                    device_types: params.device_types,
                    operating_systems: final(self)@.configs[campaign_id].operating_systems,
                    languages: params.languages,
                    min_reputation_score: params.min_reputation,
                    exclude_fraud: params.exclude_fraud,
                    require_kyc: params.require_kyc,
                    max_cpm: params.max_cpm,
                    created_at: ledger.timestamp,
                    last_updated: ledger.timestamp,
                }
                &&& final(self)@.configs[campaign_id].operating_systems@ == Seq::<char>::empty()
            },
    {
        if !auth.check(advertiser) {
            return Err(Error::AuthRequired);
        }
        if params.min_age > params.max_age {
            return Err(Error::InvalidAgeRange);
        }
        let config = TargetingConfig {
            campaign_id,
            advertiser,
            geographic_targets: params.geographic_targets,
            interest_segments: params.interest_segments,
            excluded_segments: params.excluded_segments,
            min_age: params.min_age,
            max_age: params.max_age,
            device_types: params.device_types,
            operating_systems: String::new(),
            languages: params.languages,
            min_reputation_score: params.min_reputation,
            exclude_fraud: params.exclude_fraud,
            require_kyc: params.require_kyc,
            max_cpm: params.max_cpm,
            created_at: ledger.timestamp,
            last_updated: ledger.timestamp,
        };
        self.configs.insert(campaign_id, config);
        Ok(())
    }

    /// Records an authorised oracle's score of a publisher for a campaign.
    pub fn compute_score(
        &mut self,
        auth: &Auth,
        ledger: &Ledger,
        oracle: u64,
        campaign_id: u64,
        publisher: u64,
        score: u32,
        match_reasons: String,
    ) -> (r: Result<(), Error>)
        ensures
            r == crate::common::outcome(
                if !auth.authorizes(oracle) {
                    Some(Error::AuthRequired)
                } else if !old(self)@.oracles.contains_key(oracle) {
                    Some(Error::Unauthorized)
                } else {
                    None
                },
                (),
            ),
            r is Err ==> final(self)@ == old(self)@,
            r is Ok ==> final(self)@ == (TargetingEngineState {
                scores: old(self)@.scores.insert(
                    (campaign_id, publisher),
                    TargetingScore { campaign_id, publisher, score, match_reasons, computed_at: ledger.timestamp },
                ),
                ..old(self)@
            }),
    {
        if !auth.check(oracle) {
            return Err(Error::AuthRequired);
        }
        if !self.oracles.contains_key(&oracle) {
            return Err(Error::Unauthorized);
        }
        let s = TargetingScore { campaign_id, publisher, score, match_reasons, computed_at: ledger.timestamp };
        self.scores.insert((campaign_id, publisher), s);
        Ok(())
    }

    /// A campaign's targeting, if set.
    pub fn get_targeting(&self, campaign_id: u64) -> (r: Option<&TargetingConfig>)
        ensures
            match r {
                Some(c) => self@.configs.contains_key(campaign_id) && *c == self@.configs[campaign_id],
                None => !self@.configs.contains_key(campaign_id),
            },
    {
        self.configs.get(&campaign_id)
    }

    /// A publisher's score for a campaign, if computed.
    pub fn get_targeting_score(&self, campaign_id: u64, publisher: u64) -> (r: Option<&TargetingScore>)
        ensures
            match r {
                Some(s) => self@.scores.contains_key((campaign_id, publisher)) && *s == self@.scores[(
                campaign_id,
                publisher,
                )],
                None => !self@.scores.contains_key((campaign_id, publisher)),
            },
    {
        self.scores.get(&(campaign_id, publisher))
    }

    /// Whether a publisher's score for a campaign reaches `min_score`.
    pub fn is_publisher_targeted(&self, campaign_id: u64, publisher: u64, min_score: u32) -> (r: bool)
        ensures
            r == (self@.scores.contains_key((campaign_id, publisher)) && self@.scores[(
            campaign_id,
            publisher,
            )].score >= min_score),
    {
        match self.scores.get(&(campaign_id, publisher)) {
            Some(s) => s.score >= min_score,
            None => false,
        }
    }
}

} // verus!
