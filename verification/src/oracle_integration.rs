//! Price feeds and campaign performance data, written by authorised oracles.
use vstd::prelude::*;
use std::collections::BTreeMap;
use vstd::hash_map::StringHashMap;
use crate::common::{Auth, Error, Ledger};

verus! {

/// An asset's price.
#[derive(Clone, Debug)]
pub struct PriceFeed {
    pub asset: String,
    /// Price in USD times 10^7.
    pub price_usd: i128,
    /// From 0 to 100.
    pub confidence: u32,
    pub timestamp: u64,
    pub source: String,
}

/// A campaign's performance as an oracle reports it.
#[derive(Clone, Copy, PartialEq, Eq, Structural, Debug)]
pub struct PerformanceData {
    pub campaign_id: u64,
    pub impressions: u64,
    pub clicks: u64,
    pub conversions: u64,
    /// From 0 to 100; lower is better.
    pub fraud_score: u32,
    pub timestamp: u64,
}

/// The contract's storage, as values.
pub struct OracleIntegrationState {
    pub admin: Option<u64>,
    /// Prices by asset symbol.
    pub prices: Map<Seq<char>, PriceFeed>,
    pub performance: Map<u64, PerformanceData>,
    /// How many times an oracle has been added.
    pub oracle_count: u32,
    pub oracles: Map<u64, bool>,
}

impl OracleIntegrationState {
    pub open spec fn admin_error(self, auth: Auth, admin: u64) -> Option<Error> {
        if !auth.authorizes(admin) {
            Some(Error::AuthRequired)
        } else if self.admin is None {
            Some(Error::NotInitialized)
        } else if self.admin != Some(admin) {
            Some(Error::Unauthorized)
        } else {
            None
        }
    }

    /// Whether `oracle` is authorised.
    pub open spec fn is_oracle(self, oracle: u64) -> bool {
        self.oracles.contains_key(oracle) && self.oracles[oracle]
    }

    pub open spec fn oracle_error(self, auth: Auth, oracle: u64) -> Option<Error> {
        if !auth.authorizes(oracle) {
            Some(Error::AuthRequired)
        } else if !self.is_oracle(oracle) {
            Some(Error::NotAuthorizedOracle)
        } else {
            None
        }
    }
}

/// The oracle-integration contract.
pub struct OracleIntegrationContract {
    admin: Option<u64>,
    prices: StringHashMap<PriceFeed>,
    performance: BTreeMap<u64, PerformanceData>,
    oracle_count: u32,
    oracles: BTreeMap<u64, bool>,
}

impl View for OracleIntegrationContract {
    type V = OracleIntegrationState;

    closed spec fn view(&self) -> OracleIntegrationState {
        OracleIntegrationState {
            admin: self.admin,
            prices: self.prices@,
            performance: self.performance@,
            oracle_count: self.oracle_count,
            oracles: self.oracles@,
        }
    }
}

impl OracleIntegrationContract {
    /// A contract with empty storage.
    pub fn new() -> (c: Self)
        ensures
            c@ == (OracleIntegrationState {
                admin: None,
                prices: Map::empty(),
                performance: Map::empty(),
                oracle_count: 0,
                oracles: Map::empty(),
            }),
    {
        OracleIntegrationContract {
            admin: None,
            prices: StringHashMap::new(),
            performance: BTreeMap::new(),
            oracle_count: 0,
            oracles: BTreeMap::new(),
        }
    }

    /// Stores the administrator.
    pub fn initialize(&mut self, auth: &Auth, admin: u64) -> (r: Result<(), Error>)
        ensures
            r == crate::common::outcome(
                if old(self)@.admin is Some {
                    Some(Error::AlreadyInitialized)
                } else if !auth.authorizes(admin) {
                    Some(Error::AuthRequired)
                } else {
                    None
                },
                (),
            ),
            r is Err ==> final(self)@ == old(self)@,
            r is Ok ==> final(self)@ == (OracleIntegrationState { admin: Some(admin), oracle_count: 0, ..old(self)@ }),
    {
        if self.admin.is_some() {
            return Err(Error::AlreadyInitialized);
        }
        if !auth.check(admin) {
            return Err(Error::AuthRequired);
        }
        self.admin = Some(admin);
        self.oracle_count = 0;
        Ok(())
    }

    fn check_admin(&self, auth: &Auth, admin: u64) -> (r: Result<(), Error>)
        ensures
            r == crate::common::outcome(self@.admin_error(*auth, admin), ()),
    {
        if !auth.check(admin) {
            return Err(Error::AuthRequired);
        }
        match self.admin {
            None => Err(Error::NotInitialized),
            Some(a) => if a != admin {
                Err(Error::Unauthorized)
            } else {
                Ok(())
            },
        }
    }

    /// Authorises an oracle and counts the addition; only the administrator may.
    pub fn add_oracle(&mut self, auth: &Auth, admin: u64, oracle: u64) -> (r: Result<(), Error>)
        ensures
            r == crate::common::outcome(
                match old(self)@.admin_error(*auth, admin) {
                    Some(e) => Some(e),
                    None => if old(self)@.oracle_count == u32::MAX {
                        Some(Error::Overflow)
                    } else {
                        None
                    },
                },
                (),
            ),
            r is Err ==> final(self)@ == old(self)@,
            r is Ok ==> final(self)@ == (OracleIntegrationState {
                oracles: old(self)@.oracles.insert(oracle, true),
                oracle_count: (old(self)@.oracle_count + 1) as u32,
                ..old(self)@
            }),
    {
        match self.check_admin(auth, admin) {
            Ok(()) => {},
            Err(e) => {
                return Err(e);
            },
        }
        if self.oracle_count == u32::MAX {
            return Err(Error::Overflow);
        }
        self.oracles.insert(oracle, true);
        self.oracle_count = self.oracle_count + 1;
        Ok(())
    }

    /// Withdraws an oracle's authorisation; only the administrator may.
    pub fn remove_oracle(&mut self, auth: &Auth, admin: u64, oracle: u64) -> (r: Result<(), Error>)
        ensures
            r == crate::common::outcome(old(self)@.admin_error(*auth, admin), ()),
            r is Err ==> final(self)@ == old(self)@,
            r is Ok ==> final(self)@ == (OracleIntegrationState {
                oracles: old(self)@.oracles.remove(oracle),
                ..old(self)@
            }),
    {
        match self.check_admin(auth, admin) {
            Ok(()) => {},
            Err(e) => {
                return Err(e);
            },
        }
        self.oracles.remove(&oracle);
        Ok(())
    }

    fn _require_oracle(&self, auth: &Auth, oracle: u64) -> (r: Result<(), Error>)
        ensures
            r == crate::common::outcome(self@.oracle_error(*auth, oracle), ()),
    {
        if !auth.check(oracle) {
            return Err(Error::AuthRequired);
        }
        let is_auth = match self.oracles.get(&oracle) {
            Some(b) => *b,
            None => false,
        };
        if !is_auth {
            return Err(Error::NotAuthorizedOracle);
        }
        Ok(())
    }

    /// Records an asset's price; only an authorised oracle may.
    pub fn update_price(
        &mut self,
        auth: &Auth,
        ledger: &Ledger,
        oracle: u64,
        asset: String,
        price_usd: i128,
        confidence: u32,
        source: String,
    ) -> (r: Result<(), Error>)
        ensures
            r == crate::common::outcome(old(self)@.oracle_error(*auth, oracle), ()),
            r is Err ==> final(self)@ == old(self)@,
            r is Ok ==> final(self)@ == (OracleIntegrationState {
                prices: old(self)@.prices.insert(
                    asset@,
                    PriceFeed { asset, price_usd, confidence, timestamp: ledger.timestamp, source },
                ),
                ..old(self)@
            }),
    {
        match self._require_oracle(auth, oracle) {
            Ok(()) => {},
            Err(e) => {
                return Err(e);
            },
        }
        let key = asset.clone();
        let feed = PriceFeed { asset, price_usd, confidence, timestamp: ledger.timestamp, source };
        self.prices.insert(key, feed);
        Ok(())
    }

    /// Records a campaign's performance; only an authorised oracle may.
    pub fn update_performance(
        &mut self,
        auth: &Auth,
        ledger: &Ledger,
        oracle: u64,
        campaign_id: u64,
        impressions: u64,
        clicks: u64,
        conversions: u64,
        fraud_score: u32,
    ) -> (r: Result<(), Error>)
        ensures
            r == crate::common::outcome(old(self)@.oracle_error(*auth, oracle), ()),
            r is Err ==> final(self)@ == old(self)@,
            r is Ok ==> final(self)@ == (OracleIntegrationState {
                performance: old(self)@.performance.insert(
                    campaign_id,
                    PerformanceData {
                        campaign_id,
                        impressions,
                        clicks,
                        conversions,
                        fraud_score,
                        timestamp: ledger.timestamp,
                    },
                ),
                ..old(self)@
            }),
    {
        match self._require_oracle(auth, oracle) {
            Ok(()) => {},
            Err(e) => {
                return Err(e);
            },
        }
        let data = PerformanceData {
            campaign_id,
            impressions,
            clicks,
            conversions,
            fraud_score,
            timestamp: ledger.timestamp,
        };
        self.performance.insert(campaign_id, data);
        Ok(())
    }

    /// An asset's price, if recorded.
    pub fn get_price(&self, asset: &str) -> (r: Option<&PriceFeed>)
        ensures
            match r {
                Some(p) => self@.prices.contains_key(asset@) && *p == self@.prices[asset@],
                None => !self@.prices.contains_key(asset@),
            },
    {
        self.prices.get(asset)
    }

    /// A campaign's performance, if recorded.
    pub fn get_performance(&self, campaign_id: u64) -> (r: Option<PerformanceData>)
        ensures
            r == (if self@.performance.contains_key(campaign_id) {
                Some(self@.performance[campaign_id])
            } else {
                None::<PerformanceData>
            }),
    {
        match self.performance.get(&campaign_id) {
            Some(p) => Some(*p),
            None => None,
        }
    }

    /// Whether an oracle is authorised.
    pub fn is_oracle_authorized(&self, oracle: u64) -> (r: bool)
        ensures
            r == self@.is_oracle(oracle),
    {
        match self.oracles.get(&oracle) {
            Some(b) => *b,
            None => false,
        }
    }
}

} // verus!
