//! On-chain anomaly detection for ad campaign traffic: an oracle keeps
//! traffic baselines and reports anomalies, which must exceed the campaign's
//! baseline when there is one; critical anomalies flag their publisher.
use vstd::prelude::*;
use std::collections::BTreeMap;
use crate::admin::{AdminSlot, accept_admin_error, propose_admin_error};
use crate::common::{Auth, Error, Ledger, saturating_mul_u64};

verus! {

/// The kinds of anomaly.
#[derive(Clone, Copy, PartialEq, Eq, Structural, Debug)]
pub enum AnomalyType {
    SuddenTrafficSpike,
    UnusualGeoPattern,
    BotLikePattern,
    ClickFarming,
    InvalidTraffic,
    SuspiciousPublisher,
}

/// How severe an anomaly is.
#[derive(Clone, Copy, PartialEq, Eq, Structural, Debug)]
pub enum AnomalySeverity {
    Low,
    Medium,
    High,
    Critical,
}

/// A reported anomaly.
#[derive(Clone, Debug)]
pub struct AnomalyReport {
    pub report_id: u64,
    pub campaign_id: u64,
    pub publisher: Option<u64>,
    pub anomaly_type: AnomalyType,
    pub severity: AnomalySeverity,
    pub description: String,
    /// JSON snapshot of the metrics at detection time.
    pub metrics_snapshot: String,
    pub auto_action_taken: bool,
    pub reported_at: u64,
    pub resolved: bool,
    pub resolved_at: Option<u64>,
}

/// A campaign's normal traffic.
#[derive(Clone, Copy, PartialEq, Eq, Structural, Debug)]
pub struct TrafficBaseline {
    pub campaign_id: u64,
    pub avg_impressions_per_hour: u64,
    pub avg_clicks_per_hour: u64,
    /// Percentage of the average above which traffic is anomalous.
    pub spike_threshold_pct: u32,
    pub last_updated: u64,
}

/// The level above which `avg` is a spike: `avg * pct / 100`, the product
/// saturating at `u64::MAX`.
pub open spec fn spike_level(avg: u64, pct: u32) -> int {
    (if avg * pct > u64::MAX {
        u64::MAX as int
    } else {
        avg * pct
    }) / 100
}

/// Whether current traffic exceeds a baseline: impressions or clicks above
/// their spike level.
pub open spec fn exceeds_baseline(b: TrafficBaseline, impressions: u64, clicks: u64) -> bool {
    impressions > spike_level(b.avg_impressions_per_hour, b.spike_threshold_pct) || clicks > spike_level(
        b.avg_clicks_per_hour,
        b.spike_threshold_pct,
    )
}

/// The contract's storage, as values.
pub struct AnomalyDetectorState {
    pub admin: AdminSlot,
    pub oracle: Option<u64>,
    pub report_counter: u64,
    pub spike_threshold: Option<u32>,
    pub reports: Map<u64, AnomalyReport>,
    /// Baselines by campaign.
    pub baselines: Map<u64, TrafficBaseline>,
    pub flagged: Map<u64, bool>,
}

impl AnomalyDetectorState {
    pub open spec fn oracle_error(self, auth: Auth, oracle: u64) -> Option<Error> {
        if !auth.authorizes(oracle) {
            Some(Error::AuthRequired)
        } else if self.oracle is None {
            Some(Error::NotInitialized)
        } else if self.oracle != Some(oracle) {
            Some(Error::Unauthorized)
        } else {
            None
        }
    }

    pub open spec fn report_error(
        self,
        auth: Auth,
        oracle: u64,
        campaign_id: u64,
        impressions: u64,
        clicks: u64,
    ) -> Option<Error> {
        match self.oracle_error(auth, oracle) {
            Some(e) => Some(e),
            None => if self.baselines.contains_key(campaign_id) && !exceeds_baseline(
                self.baselines[campaign_id],
                impressions,
                clicks,
            ) {
                Some(Error::MetricsBelowThreshold)
            } else if self.report_counter == u64::MAX {
                Some(Error::Overflow)
            } else {
                None
            },
        }
    }
}

/// The anomaly-detector contract.
pub struct AnomalyDetectorContract {
    admin: AdminSlot,
    oracle: Option<u64>,
    report_counter: u64,
    spike_threshold: Option<u32>,
    reports: BTreeMap<u64, AnomalyReport>,
    baselines: BTreeMap<u64, TrafficBaseline>,
    flagged: BTreeMap<u64, bool>,
}

impl View for AnomalyDetectorContract {
    type V = AnomalyDetectorState;

    closed spec fn view(&self) -> AnomalyDetectorState {
        AnomalyDetectorState {
            admin: self.admin,
            oracle: self.oracle,
            report_counter: self.report_counter,
            spike_threshold: self.spike_threshold,
            reports: self.reports@,
            baselines: self.baselines@,
            flagged: self.flagged@,
        }
    }
}

impl AnomalyDetectorContract {
    /// A contract with empty storage.
    pub fn new() -> (c: Self)
        ensures
            c@ == (AnomalyDetectorState {
                admin: AdminSlot { admin: None, pending: None },
                oracle: None,
                report_counter: 0,
                spike_threshold: None,
                reports: Map::empty(),
                baselines: Map::empty(),
                flagged: Map::empty(),
            }),
    {
        AnomalyDetectorContract {
            admin: AdminSlot { admin: None, pending: None },
            oracle: None,
            report_counter: 0,
            spike_threshold: None,
            reports: BTreeMap::new(),
            baselines: BTreeMap::new(),
            flagged: BTreeMap::new(),
        }
    }

    /// Stores the administrator and oracle, with a default spike threshold of 300%.
    pub fn initialize(&mut self, auth: &Auth, admin: u64, oracle: u64) -> (r: Result<(), Error>)
        ensures
            r == crate::common::outcome(
                if old(self)@.admin.admin is Some {
                    Some(Error::AlreadyInitialized)
                } else if !auth.authorizes(admin) {
                    Some(Error::AuthRequired)
                } else {
                    None
                },
                (),
            ),
            r is Err ==> final(self)@ == old(self)@,
            r is Ok ==> final(self)@ == (AnomalyDetectorState {
                admin: AdminSlot { admin: Some(admin), ..old(self)@.admin },
                oracle: Some(oracle),
                report_counter: 0,
                spike_threshold: Some(300),
                ..old(self)@
            }),
    {
        if self.admin.admin.is_some() {
            return Err(Error::AlreadyInitialized);
        }
        if !auth.check(admin) {
            return Err(Error::AuthRequired);
        }
        self.admin.admin = Some(admin);
        self.oracle = Some(oracle);
        self.report_counter = 0;
        self.spike_threshold = Some(300);
        Ok(())
    }

    fn check_oracle(&self, auth: &Auth, oracle: u64) -> (r: Result<(), Error>)
        ensures
            r == crate::common::outcome(self@.oracle_error(*auth, oracle), ()),
    {
        if !auth.check(oracle) {
            return Err(Error::AuthRequired);
        }
        match self.oracle {
            None => Err(Error::NotInitialized),
            Some(o) => if o != oracle {
                Err(Error::Unauthorized)
            } else {
                Ok(())
            },
        }
    }

    /// Records a campaign's traffic baseline; only the oracle may.
    pub fn set_baseline(
        &mut self,
        auth: &Auth,
        ledger: &Ledger,
        oracle: u64,
        campaign_id: u64,
        avg_impressions: u64,
        avg_clicks: u64,
        spike_threshold: u32,
    ) -> (r: Result<(), Error>)
        ensures
            r == crate::common::outcome(old(self)@.oracle_error(*auth, oracle), ()),
            r is Err ==> final(self)@ == old(self)@,
            r is Ok ==> final(self)@ == (AnomalyDetectorState {
                baselines: old(self)@.baselines.insert(
                    campaign_id,
                    TrafficBaseline {
                        campaign_id,
                        avg_impressions_per_hour: avg_impressions,
                        avg_clicks_per_hour: avg_clicks,
                        spike_threshold_pct: spike_threshold,
                        last_updated: ledger.timestamp,
                    },
                ),
                ..old(self)@
            }),
    {
        match self.check_oracle(auth, oracle) {
            Ok(()) => {},
            Err(e) => {
                return Err(e);
            },
        }
        let baseline = TrafficBaseline {
            campaign_id,
            avg_impressions_per_hour: avg_impressions,
            avg_clicks_per_hour: avg_clicks,
            spike_threshold_pct: spike_threshold,
            last_updated: ledger.timestamp,
        };
        self.baselines.insert(campaign_id, baseline);
        Ok(())
    }

    /// Records an anomaly reported by the oracle and returns its id, one
    /// more than the last. Where the campaign has a baseline, the current
    /// impressions or clicks must exceed its spike level. A critical anomaly
    /// flags its publisher.
    pub fn report_anomaly(
        &mut self,
        auth: &Auth,
        ledger: &Ledger,
        oracle: u64,
        campaign_id: u64,
        publisher: Option<u64>,
        anomaly_type: AnomalyType,
        severity: AnomalySeverity,
        description: String,
        metrics_snapshot: String,
        auto_action: bool,
        current_impressions_per_hour: u64,
        current_clicks_per_hour: u64,
    ) -> (r: Result<u64, Error>)
        ensures
            match old(self)@.report_error(
                *auth,
                oracle,
                campaign_id,
                current_impressions_per_hour,
                current_clicks_per_hour,
            ) {
                Some(e) => r == Err::<u64, Error>(e) && final(self)@ == old(self)@,
                None => {
                    let id = (old(self)@.report_counter + 1) as u64;
                    &&& r == Ok::<u64, Error>(id)
                    &&& final(self)@ == AnomalyDetectorState {
                        report_counter: id,
                        reports: old(self)@.reports.insert(
                            id,
                            AnomalyReport {
                                report_id: id,
                                campaign_id,
                                publisher,
                                anomaly_type,
                                severity,
                                description,
                                metrics_snapshot,
                                auto_action_taken: auto_action,
                                reported_at: ledger.timestamp,
                                resolved: false,
                                resolved_at: None,
                            },
                        ),
                        flagged: if publisher is Some && severity == AnomalySeverity::Critical {
                            old(self)@.flagged.insert(publisher.unwrap(), true)
                        } else {
                            old(self)@.flagged
                        },
                        ..old(self)@
                    }
                },
            },
    {
        match self.check_oracle(auth, oracle) {
            Ok(()) => {},
            Err(e) => {
                return Err(e);
            },
        }
        match self.baselines.get(&campaign_id) {
            Some(b) => {
                let multiplier = b.spike_threshold_pct as u64;
                let impressions_threshold = saturating_mul_u64(b.avg_impressions_per_hour, multiplier) / 100;
                let clicks_threshold = saturating_mul_u64(b.avg_clicks_per_hour, multiplier) / 100;
                let impressions_exceeded = current_impressions_per_hour > impressions_threshold;
                let clicks_exceeded = current_clicks_per_hour > clicks_threshold;
                if !impressions_exceeded && !clicks_exceeded {
                    return Err(Error::MetricsBelowThreshold);
                }
            },
            None => {},
        }
        if self.report_counter == u64::MAX {
            return Err(Error::Overflow);
        }
        let report_id = self.report_counter + 1;
        match publisher {
            Some(p) => {
                match severity {
                    AnomalySeverity::Critical => {
                        self.flagged.insert(p, true);
                    },
                    _ => {},
                }
            },
            None => {},
        }
        let report = AnomalyReport {
            report_id,
            campaign_id,
            publisher,
            anomaly_type,
            severity,
            description,
            metrics_snapshot,
            auto_action_taken: auto_action,
            reported_at: ledger.timestamp,
            resolved: false,
            resolved_at: None,
        };
        self.reports.insert(report_id, report);
        self.report_counter = report_id;
        Ok(report_id)
    }

    /// Marks a report resolved at the current time; only the administrator may.
    pub fn resolve_anomaly(&mut self, auth: &Auth, ledger: &Ledger, admin: u64, report_id: u64) -> (r: Result<
        (),
        Error,
    >)
        ensures
            r == crate::common::outcome(
                if !auth.authorizes(admin) {
                    Some(Error::AuthRequired)
                } else if old(self)@.admin.admin is None {
                    Some(Error::NotInitialized)
                } else if old(self)@.admin.admin != Some(admin) {
                    Some(Error::Unauthorized)
                } else if !old(self)@.reports.contains_key(report_id) {
                    Some(Error::ReportNotFound)
                } else {
                    None
                },
                (),
            ),
            r is Err ==> final(self)@ == old(self)@,
            r is Ok ==> final(self)@ == (AnomalyDetectorState {
                reports: old(self)@.reports.insert(
                    report_id,
                    AnomalyReport {
                        resolved: true,
                        resolved_at: Some(ledger.timestamp),
                        ..old(self)@.reports[report_id]
                    },
                ),
                ..old(self)@
            }),
    {
        if !auth.check(admin) {
            return Err(Error::AuthRequired);
        }
        match self.admin.admin {
            None => {
                return Err(Error::NotInitialized);
            },
            Some(a) => {
                if a != admin {
                    return Err(Error::Unauthorized);
                }
            },
        }
        let mut report = match self.reports.remove(&report_id) {
            Some(r) => r,
            None => {
                assert(self.reports@ =~= old(self).reports@);
                return Err(Error::ReportNotFound);
            },
        };
        report.resolved = true;
        report.resolved_at = Some(ledger.timestamp);
        self.reports.insert(report_id, report);
        proof {
            assert(self.reports@ == old(self).reports@.insert(report_id, report));
        }
        Ok(())
    }

    /// A report, if it exists.
    pub fn get_report(&self, report_id: u64) -> (r: Option<&AnomalyReport>)
        ensures
            match r {
                Some(x) => self@.reports.contains_key(report_id) && *x == self@.reports[report_id],
                None => !self@.reports.contains_key(report_id),
            },
    {
        self.reports.get(&report_id)
    }

    /// A campaign's baseline, if set.
    pub fn get_baseline(&self, campaign_id: u64) -> (r: Option<TrafficBaseline>)
        ensures
            r == (if self@.baselines.contains_key(campaign_id) {
                Some(self@.baselines[campaign_id])
            } else {
                None::<TrafficBaseline>
            }),
    {
        match self.baselines.get(&campaign_id) {
            Some(b) => Some(*b),
            None => None,
        }
    }

    /// Whether a critical anomaly has flagged the publisher.
    pub fn is_publisher_flagged(&self, publisher: u64) -> (r: bool)
        ensures
            r == (self@.flagged.contains_key(publisher) && self@.flagged[publisher]),
    {
        match self.flagged.get(&publisher) {
            Some(f) => *f,
            None => false,
        }
    }

    /// The number of reports.
    pub fn get_report_count(&self) -> (r: u64)
        ensures
            r == self@.report_counter,
    {
        self.report_counter
    }

    /// Proposes a successor to the administrator; only the administrator may.
    pub fn propose_admin(&mut self, auth: &Auth, current_admin: u64, new_admin: u64) -> (r: Result<(), Error>)
        ensures
            r == crate::common::outcome(propose_admin_error(old(self)@.admin, *auth, current_admin), ()),
            r is Err ==> final(self)@ == old(self)@,
            r is Ok ==> final(self)@ == (AnomalyDetectorState {
                admin: AdminSlot { pending: Some(new_admin), ..old(self)@.admin },
                ..old(self)@
            }),
    {
        crate::admin::propose_admin(&mut self.admin, auth, current_admin, new_admin)
    }

    /// Makes the proposed successor the administrator, at its own request.
    pub fn accept_admin(&mut self, auth: &Auth, new_admin: u64) -> (r: Result<(), Error>)
        ensures
            r == crate::common::outcome(accept_admin_error(old(self)@.admin, *auth, new_admin), ()),
            r is Err ==> final(self)@ == old(self)@,
            r is Ok ==> final(self)@ == (AnomalyDetectorState {
                admin: AdminSlot { admin: Some(new_admin), pending: None },
                ..old(self)@
            }),
    {
        crate::admin::accept_admin(&mut self.admin, auth, new_admin)
    }
}

/// A report that goes through, for a campaign with a baseline, carries
/// traffic above the baseline's spike level.
pub proof fn lemma_report_exceeds_baseline(
    s: AnomalyDetectorState,
    auth: Auth,
    oracle: u64,
    campaign_id: u64,
    impressions: u64,
    clicks: u64,
)
    requires
        s.report_error(auth, oracle, campaign_id, impressions, clicks) is None,
        s.baselines.contains_key(campaign_id),
    ensures
        exceeds_baseline(s.baselines[campaign_id], impressions, clicks),
{
}

/// The spike level is the threshold percentage of the average, rounded
/// down, with the product capped at `u64::MAX`.
pub proof fn lemma_spike_level_is_percentage(avg: u64, pct: u32)
    ensures
        avg * pct <= u64::MAX ==> spike_level(avg, pct) * 100 <= avg * pct < (spike_level(avg, pct) + 1) * 100,
        avg * pct > u64::MAX ==> spike_level(avg, pct) == u64::MAX / 100,
{
    assert(avg * pct >= 0) by (nonlinear_arith);
    if avg * pct <= u64::MAX {
        let x = avg * pct;
        assert((x / 100) * 100 <= x < (x / 100 + 1) * 100) by (nonlinear_arith)
            requires
                x >= 0,
        ;
    }
}

} // verus!
