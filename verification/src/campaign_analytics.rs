//! Campaign analytics written by an oracle: snapshots of a campaign's
//! metrics, kept in a ring of `MAX_SNAPSHOTS` slots where the newest
//! overwrites the oldest, its conversion funnel and its retention.
use vstd::prelude::*;
use std::collections::BTreeMap;
use crate::common::{Auth, Error, Ledger};

verus! {

/// The number of snapshot slots each campaign has.
pub const MAX_SNAPSHOTS: u32 = 100;

/// A campaign's metrics at one moment.
#[derive(Clone, Copy, PartialEq, Eq, Structural, Debug)]
pub struct CampaignSnapshot {
    pub campaign_id: u64,
    pub ledger_sequence: u32,
    pub timestamp: u64,
    pub impressions: u64,
    pub clicks: u64,
    pub conversions: u64,
    pub spend: i128,
    pub reach: u64,
}

/// How well a campaign retains its audience.
#[derive(Clone, Copy, PartialEq, Eq, Structural, Debug)]
pub struct RetentionMetrics {
    pub campaign_id: u64,
    /// Percentage times 100.
    pub day_1_retention: u32,
    pub day_7_retention: u32,
    pub day_30_retention: u32,
    /// In seconds.
    pub avg_session_duration: u64,
    pub bounce_rate: u32,
}

/// A campaign's conversion funnel.
#[derive(Clone, Copy, PartialEq, Eq, Structural, Debug)]
pub struct ConversionFunnel {
    pub campaign_id: u64,
    pub impressions: u64,
    pub engagements: u64,
    pub clicks: u64,
    pub sign_ups: u64,
    pub conversions: u64,
    pub conversion_value: i128,
}

/// The contract's storage, as values.
pub struct CampaignAnalyticsState {
    pub admin: Option<u64>,
    pub oracle: Option<u64>,
    /// Snapshots ever recorded, by campaign.
    pub snapshot_counts: Map<u64, u32>,
    /// Snapshots by campaign and slot.
    pub snapshots: Map<(u64, u32), CampaignSnapshot>,
    pub retention: Map<u64, RetentionMetrics>,
    pub funnels: Map<u64, ConversionFunnel>,
}

impl CampaignAnalyticsState {
    pub open spec fn oracle_error(self, auth: Auth, oracle: u64) -> Option<Error> {
        if !auth.authorizes(oracle) {
            Some(Error::AuthRequired)
        } else if self.oracle is None {
            Some(Error::NotInitialized)
        } else if self.oracle != Some(oracle) {
            Some(Error::Unauthorized)
        } else {
            None
        }
    }

    /// The number of snapshots ever recorded for a campaign.
    pub open spec fn snapshot_count(self, campaign_id: u64) -> u32 {
        if self.snapshot_counts.contains_key(campaign_id) {
            self.snapshot_counts[campaign_id]
        } else {
            0
        }
    }

    /// The number of a campaign's snapshots that are kept: all of them up
    /// to `MAX_SNAPSHOTS`.
    pub open spec fn kept_count(self, campaign_id: u64) -> u32 {
        if self.snapshot_count(campaign_id) < MAX_SNAPSHOTS {
            self.snapshot_count(campaign_id)
        } else {
            MAX_SNAPSHOTS
        }
    }

    /// What every reachable state satisfies: a campaign's snapshots fill
    /// exactly its first slots, as many as are kept.
    pub open spec fn wf(self) -> bool {
        forall|c: u64, slot: u32| #[trigger] self.snapshots.contains_key((c, slot)) <==> slot < self.kept_count(c)
    }
}

/// The campaign-analytics contract.
pub struct CampaignAnalyticsContract {
    admin: Option<u64>,
    oracle: Option<u64>,
    snapshot_counts: BTreeMap<u64, u32>,
    snapshots: BTreeMap<(u64, u32), CampaignSnapshot>,
    retention: BTreeMap<u64, RetentionMetrics>,
    funnels: BTreeMap<u64, ConversionFunnel>,
}

impl View for CampaignAnalyticsContract {
    type V = CampaignAnalyticsState;

    closed spec fn view(&self) -> CampaignAnalyticsState {
        CampaignAnalyticsState {
            admin: self.admin,
            oracle: self.oracle,
            snapshot_counts: self.snapshot_counts@,
            snapshots: self.snapshots@,
            retention: self.retention@,
            funnels: self.funnels@,
        }
    }
}

impl CampaignAnalyticsContract {
    /// A contract with empty storage.
    pub fn new() -> (c: Self)
        ensures
            c@.wf(),
            c@ == (CampaignAnalyticsState {
                admin: None,
                oracle: None,
                snapshot_counts: Map::empty(),
                snapshots: Map::empty(),
                retention: Map::empty(),
                funnels: Map::empty(),
            }),
    {
        CampaignAnalyticsContract {
            admin: None,
            oracle: None,
            snapshot_counts: BTreeMap::new(),
            snapshots: BTreeMap::new(),
            retention: BTreeMap::new(),
            funnels: BTreeMap::new(),
        }
    }

    /// Stores the administrator and the oracle.
    pub fn initialize(&mut self, auth: &Auth, admin: u64, oracle: u64) -> (r: Result<(), Error>)
        requires
            old(self)@.wf(),
        ensures
            final(self)@.wf(),
            r == crate::common::outcome(
                if old(self)@.admin is Some {
                    Some(Error::AlreadyInitialized)
                } else if !auth.authorizes(admin) {
                    Some(Error::AuthRequired)
                } else {
                    None
                },
                (),
            ),
            r is Err ==> final(self)@ == old(self)@,
            r is Ok ==> final(self)@ == (CampaignAnalyticsState {
                admin: Some(admin),
                oracle: Some(oracle),
                ..old(self)@
            }),
    {
        if self.admin.is_some() {
            return Err(Error::AlreadyInitialized);
        }
        if !auth.check(admin) {
            return Err(Error::AuthRequired);
        }
        self.admin = Some(admin);
        self.oracle = Some(oracle);
        Ok(())
    }

    fn check_oracle(&self, auth: &Auth, oracle: u64) -> (r: Result<(), Error>)
        ensures
            r == crate::common::outcome(self@.oracle_error(*auth, oracle), ()),
    {
        if !auth.check(oracle) {
            return Err(Error::AuthRequired);
        }
        match self.oracle {
            None => Err(Error::NotInitialized),
            Some(o) => if o != oracle {
                Err(Error::Unauthorized)
            } else {
                Ok(())
            },
        }
    }

    /// Records a snapshot of a campaign's metrics in slot `n % MAX_SNAPSHOTS`,
    /// where `n` is the number of snapshots recorded before it, and counts
    /// it; only the oracle may.
    pub fn record_snapshot(
        &mut self,
        auth: &Auth,
        ledger: &Ledger,
        oracle: u64,
        campaign_id: u64,
        impressions: u64,
        clicks: u64,
        conversions: u64,
        spend: i128,
        reach: u64,
    ) -> (r: Result<(), Error>)
        requires
            old(self)@.wf(),
        ensures
            final(self)@.wf(),
            r == crate::common::outcome(
                match old(self)@.oracle_error(*auth, oracle) {
                    Some(e) => Some(e),
                    None => if old(self)@.snapshot_count(campaign_id) == u32::MAX {
                        Some(Error::Overflow)
                    } else {
                        None
                    },
                },
                (),
            ),
            r is Err ==> final(self)@ == old(self)@,
            r is Ok ==> {
                let count = old(self)@.snapshot_count(campaign_id);
                final(self)@ == CampaignAnalyticsState {
                    snapshots: old(self)@.snapshots.insert(
                        (campaign_id, (count % MAX_SNAPSHOTS) as u32),
                        CampaignSnapshot {
                            campaign_id,
                            ledger_sequence: ledger.sequence,
                            timestamp: ledger.timestamp,
                            impressions,
                            clicks,
                            conversions,
                            spend,
                            reach,
                        },
                    ),
                    snapshot_counts: old(self)@.snapshot_counts.insert(campaign_id, (count + 1) as u32),
                    ..old(self)@
                }
            },
    {
        match self.check_oracle(auth, oracle) {
            Ok(()) => {},
            Err(e) => {
                return Err(e);
            },
        }
        let count: u32 = match self.snapshot_counts.get(&campaign_id) {
            Some(c) => *c,
            None => 0,
        };
        if count == u32::MAX {
            return Err(Error::Overflow);
        }
        let snapshot = CampaignSnapshot {
            campaign_id,
            ledger_sequence: ledger.sequence,
            timestamp: ledger.timestamp,
            impressions,
            clicks,
            conversions,
            spend,
            reach,
        };
        self.snapshots.insert((campaign_id, count % MAX_SNAPSHOTS), snapshot);
        self.snapshot_counts.insert(campaign_id, count + 1);
        Ok(())
    }

    /// Records a campaign's conversion funnel; only the oracle may.
    pub fn update_funnel(
        &mut self,
        auth: &Auth,
        oracle: u64,
        campaign_id: u64,
        impressions: u64,
        engagements: u64,
        clicks: u64,
        sign_ups: u64,
        conversions: u64,
        conversion_value: i128,
    ) -> (r: Result<(), Error>)
        requires
            old(self)@.wf(),
        ensures
            final(self)@.wf(),
            r == crate::common::outcome(old(self)@.oracle_error(*auth, oracle), ()),
            r is Err ==> final(self)@ == old(self)@,
            r is Ok ==> final(self)@ == (CampaignAnalyticsState {
                funnels: old(self)@.funnels.insert(
                    campaign_id,
                    ConversionFunnel {
                        campaign_id,
                        impressions,
                        engagements,
                        clicks,
                        sign_ups,
                        conversions,
                        conversion_value,
                    },
                ),
                ..old(self)@
            }),
    {
        match self.check_oracle(auth, oracle) {
            Ok(()) => {},
            Err(e) => {
                return Err(e);
            },
        }
        let funnel = ConversionFunnel {
            campaign_id,
            impressions,
            engagements,
            clicks,
            sign_ups,
            conversions,
            conversion_value,
        };
        self.funnels.insert(campaign_id, funnel);
        Ok(())
    }

    /// Records a campaign's retention; only the oracle may.
    pub fn update_retention(
        &mut self,
        auth: &Auth,
        oracle: u64,
        campaign_id: u64,
        day1: u32,
        day7: u32,
        day30: u32,
        avg_session: u64,
        bounce_rate: u32,
    ) -> (r: Result<(), Error>)
        requires
            old(self)@.wf(),
        ensures
            final(self)@.wf(),
            r == crate::common::outcome(old(self)@.oracle_error(*auth, oracle), ()),
            r is Err ==> final(self)@ == old(self)@,
            r is Ok ==> final(self)@ == (CampaignAnalyticsState {
                retention: old(self)@.retention.insert(
                    campaign_id,
                    RetentionMetrics {
                        campaign_id,
                        day_1_retention: day1,
                        day_7_retention: day7,
                        day_30_retention: day30,
                        avg_session_duration: avg_session,
                        bounce_rate,
                    },
                ),
                ..old(self)@
            }),
    {
        match self.check_oracle(auth, oracle) {
            Ok(()) => {},
            Err(e) => {
                return Err(e);
            },
        }
        let metrics = RetentionMetrics {
            campaign_id,
            day_1_retention: day1,
            day_7_retention: day7,
            day_30_retention: day30,
            avg_session_duration: avg_session,
            bounce_rate,
        };
        self.retention.insert(campaign_id, metrics);
        Ok(())
    }

    /// The snapshot in slot `index` of a campaign, if recorded.
    pub fn get_snapshot(&self, campaign_id: u64, index: u32) -> (r: Option<CampaignSnapshot>)
        ensures
            r == (if self@.snapshots.contains_key((campaign_id, index)) {
                Some(self@.snapshots[(campaign_id, index)])
            } else {
                None::<CampaignSnapshot>
            }),
    {
        match self.snapshots.get(&(campaign_id, index)) {
            Some(s) => Some(*s),
            None => None,
        }
    }

    /// The number of snapshots ever recorded for a campaign.
    pub fn get_snapshot_count(&self, campaign_id: u64) -> (r: u32)
        ensures
            r == self@.snapshot_count(campaign_id),
    {
        match self.snapshot_counts.get(&campaign_id) {
            Some(c) => *c,
            None => 0,
        }
    }

    /// The number of snapshots a campaign's slots hold: those recorded, up
    /// to `MAX_SNAPSHOTS`.
    pub fn get_stored_snapshot_count(&self, campaign_id: u64) -> (r: u32)
        ensures
            r == self@.kept_count(campaign_id),
    {
        let count = self.get_snapshot_count(campaign_id);
        if count < MAX_SNAPSHOTS {
            count
        } else {
            MAX_SNAPSHOTS
        }
    }

    /// The number of snapshot slots each campaign has.
    pub fn get_max_snapshots(&self) -> (r: u32)
        ensures
            r == MAX_SNAPSHOTS,
    {
        MAX_SNAPSHOTS
    }

    /// A campaign's funnel, if recorded.
    pub fn get_funnel(&self, campaign_id: u64) -> (r: Option<ConversionFunnel>)
        ensures
            r == (if self@.funnels.contains_key(campaign_id) {
                Some(self@.funnels[campaign_id])
            } else {
                None::<ConversionFunnel>
            }),
    {
        match self.funnels.get(&campaign_id) {
            Some(f) => Some(*f),
            None => None,
        }
    }

    /// A campaign's retention, if recorded.
    pub fn get_retention(&self, campaign_id: u64) -> (r: Option<RetentionMetrics>)
        ensures
            r == (if self@.retention.contains_key(campaign_id) {
                Some(self@.retention[campaign_id])
            } else {
                None::<RetentionMetrics>
            }),
    {
        match self.retention.get(&campaign_id) {
            Some(m) => Some(*m),
            None => None,
        }
    }
}

/// Snapshots always land in one of a campaign's `MAX_SNAPSHOTS` slots.
pub proof fn lemma_slot_in_range(count: u32)
    ensures
        count % MAX_SNAPSHOTS < MAX_SNAPSHOTS,
{
}

/// The ring keeps the newest snapshots: after `n` snapshots of a campaign,
/// slots `0` to `min(n, MAX_SNAPSHOTS) - 1` hold snapshots and no other
/// slot does.
pub proof fn lemma_ring_slots(s: CampaignAnalyticsState, campaign_id: u64, slot: u32)
    requires
        s.wf(),
    ensures
        s.snapshots.contains_key((campaign_id, slot)) <==> slot < s.kept_count(campaign_id),
        s.kept_count(campaign_id) <= MAX_SNAPSHOTS,
{
}

} // verus!
