//! Attestations of campaign performance: authorised attesters each attest
//! once per campaign, and once enough have attested the campaign's
//! consensus is the average of all its attestations.
use vstd::prelude::*;
use std::collections::BTreeMap;
use crate::common::{Auth, Error, Ledger};

verus! {

/// One attester's account of a campaign's performance.
#[derive(Clone, Copy, Debug)]
pub struct PerformanceAttestation {
    pub campaign_id: u64,
    pub attester: u64,
    pub impressions_verified: u64,
    pub clicks_verified: u64,
    /// In basis points.
    pub fraud_rate: u32,
    /// From 0 to 100.
    pub quality_score: u32,
    /// Hash of the raw performance data.
    pub data_hash: [u8; 32],
    pub attested_at: u64,
    pub ledger_sequence: u32,
}

/// The average of a campaign's attestations.
#[derive(Clone, Copy, PartialEq, Eq, Structural, Debug)]
pub struct OracleConsensus {
    pub campaign_id: u64,
    pub total_attesters: u32,
    pub avg_impressions: u64,
    pub avg_clicks: u64,
    pub avg_fraud_rate: u32,
    pub avg_quality_score: u32,
    pub consensus_reached: bool,
    pub last_updated: u64,
}

/// The sum of `f` over the attestations in `s`.
pub open spec fn total(s: Seq<PerformanceAttestation>, f: spec_fn(PerformanceAttestation) -> int) -> int
    decreases s.len(),
{
    if s.len() == 0 {
        0
    } else {
        total(s.drop_last(), f) + f(s.last())
    }
}

pub open spec fn impressions_of(a: PerformanceAttestation) -> int {
    a.impressions_verified as int
}

pub open spec fn clicks_of(a: PerformanceAttestation) -> int {
    a.clicks_verified as int
}

pub open spec fn fraud_rate_of(a: PerformanceAttestation) -> int {
    a.fraud_rate as int
}

pub open spec fn quality_of(a: PerformanceAttestation) -> int {
    a.quality_score as int
}

/// The consensus of a campaign's attestations: each average is the sum over
/// all of them divided by their number, rounded down.
pub open spec fn consensus_of(campaign_id: u64, s: Seq<PerformanceAttestation>, now: u64) -> OracleConsensus {
    OracleConsensus {
        campaign_id,
        total_attesters: s.len() as u32,
        avg_impressions: (total(s, |a| impressions_of(a)) / (s.len() as int)) as u64,
        avg_clicks: (total(s, |a| clicks_of(a)) / (s.len() as int)) as u64,
        avg_fraud_rate: (total(s, |a| fraud_rate_of(a)) / (s.len() as int)) as u32,
        avg_quality_score: (total(s, |a| quality_of(a)) / (s.len() as int)) as u32,
        consensus_reached: true,
        last_updated: now,
    }
}

/// A sum of values between 0 and `m` lies between 0 and `m` times their number.
pub proof fn lemma_total_bounds(s: Seq<PerformanceAttestation>, f: spec_fn(PerformanceAttestation) -> int, m: int)
    requires
        m >= 0,
        forall|i: int| 0 <= i < s.len() ==> 0 <= #[trigger] f(s[i]) <= m,
    ensures
        0 <= total(s, f) <= s.len() * m,
    decreases s.len(),
{
    if s.len() > 0 {
        assert forall|i: int| 0 <= i < s.drop_last().len() implies 0 <= #[trigger] f(s.drop_last()[i]) <= m by {
            assert(s.drop_last()[i] == s[i]);
        }
        lemma_total_bounds(s.drop_last(), f, m);
        assert(f(s.last()) == f(s[s.len() - 1]));
        assert((s.len() - 1) * m + m == s.len() * m) by (nonlinear_arith);
    }
}

/// The average of values between 0 and `m` is at most `m`.
pub proof fn lemma_average_bounds(s: Seq<PerformanceAttestation>, f: spec_fn(PerformanceAttestation) -> int, m: int)
    requires
        m >= 0,
        s.len() > 0,
        forall|i: int| 0 <= i < s.len() ==> 0 <= #[trigger] f(s[i]) <= m,
    ensures
        0 <= total(s, f) / (s.len() as int) <= m,
{
    lemma_total_bounds(s, f, m);
    let n = s.len() as int;
    let t = total(s, f);
    assert(0 <= t / n <= m) by (nonlinear_arith)
        requires
            0 <= t <= n * m,
            n > 0,
    ;
}

/// A consensus's averages stay within the range of what was attested: with
/// every quality score at most 100, so is the average quality score.
pub proof fn lemma_consensus_quality_bounded(campaign_id: u64, s: Seq<PerformanceAttestation>, now: u64)
    requires
        0 < s.len() <= u32::MAX,
        forall|i: int| 0 <= i < s.len() ==> #[trigger] s[i].quality_score <= 100,
    ensures
        consensus_of(campaign_id, s, now).avg_quality_score <= 100,
        consensus_of(campaign_id, s, now).total_attesters == s.len(),
{
    let f = |a: PerformanceAttestation| quality_of(a);
    assert forall|i: int| 0 <= i < s.len() implies 0 <= #[trigger] f(s[i]) <= 100 by {
        assert(s[i].quality_score <= 100);
    }
    lemma_average_bounds(s, f, 100);
}

/// The contract's storage, as values.
pub struct PerformanceOracleState {
    pub admin: Option<u64>,
    pub min_attesters: u32,
    pub consensus_threshold_pct: Option<u32>,
    pub attesters: Map<u64, bool>,
    /// Each campaign's attestations, in the order they were made.
    pub attestations: Map<u64, Seq<PerformanceAttestation>>,
    pub consensus: Map<u64, OracleConsensus>,
}

impl PerformanceOracleState {
    /// A campaign's attestations.
    pub open spec fn attestations_of(self, campaign_id: u64) -> Seq<PerformanceAttestation> {
        if self.attestations.contains_key(campaign_id) {
            self.attestations[campaign_id]
        } else {
            Seq::empty()
        }
    }

    /// Whether `attester` has attested campaign `campaign_id`.
    pub open spec fn has_attested(self, campaign_id: u64, attester: u64) -> bool {
        exists|i: int|
            0 <= i < self.attestations_of(campaign_id).len() && #[trigger] self.attestations_of(
                campaign_id,
            )[i].attester == attester
    }

    /// What every reachable state satisfies: a campaign's attestations are
    /// filed under it, come from distinct attesters, and their number fits
    /// in 32 bits.
    pub open spec fn wf(self) -> bool {
        forall|c: u64| #[trigger] self.attestations.contains_key(c) ==> {
            &&& self.attestations[c].len() <= u32::MAX
            &&& forall|i: int| 0 <= i < self.attestations[c].len() ==> #[trigger] self.attestations[c][i].campaign_id == c
            &&& forall|i: int, j: int|
                0 <= i < j < self.attestations[c].len() ==> #[trigger] self.attestations[c][i].attester
                    != #[trigger] self.attestations[c][j].attester
        }
    }
}

/// The performance-oracle contract.
pub struct PerformanceOracleContract {
    admin: Option<u64>,
    min_attesters: u32,
    consensus_threshold_pct: Option<u32>,
    attesters: BTreeMap<u64, bool>,
    attestations: BTreeMap<u64, Vec<PerformanceAttestation>>,
    consensus: BTreeMap<u64, OracleConsensus>,
}

impl View for PerformanceOracleContract {
    type V = PerformanceOracleState;

    closed spec fn view(&self) -> PerformanceOracleState {
        PerformanceOracleState {
            admin: self.admin,
            min_attesters: self.min_attesters,
            consensus_threshold_pct: self.consensus_threshold_pct,
            attesters: self.attesters@,
            attestations: self.attestations@.map_values(|v: Vec<PerformanceAttestation>| v@),
            consensus: self.consensus@,
        }
    }
}

impl PerformanceOracleContract {
    /// A contract with empty storage; the minimum number of attesters reads
    /// as 3 until set.
    pub fn new() -> (c: Self)
        ensures
            c@ == (PerformanceOracleState {
                admin: None,
                min_attesters: 3,
                consensus_threshold_pct: None,
                attesters: Map::empty(),
                attestations: Map::empty(),
                consensus: Map::empty(),
            }),
            c@.wf(),
    {
        let c = PerformanceOracleContract {
            admin: None,
            min_attesters: 3,
            consensus_threshold_pct: None,
            attesters: BTreeMap::new(),
            attestations: BTreeMap::new(),
            consensus: BTreeMap::new(),
        };
        assert(c@.attestations =~= Map::<u64, Seq<PerformanceAttestation>>::empty());
        c
    }

    /// Stores the administrator, the number of attesters a consensus needs,
    /// and a consensus threshold of 67%.
    pub fn initialize(&mut self, auth: &Auth, admin: u64, min_attesters: u32) -> (r: Result<(), Error>)
        requires
            old(self)@.wf(),
        ensures
            final(self)@.wf(),
            r == crate::common::outcome(
                if old(self)@.admin is Some {
                    Some(Error::AlreadyInitialized)
                } else if !auth.authorizes(admin) {
                    Some(Error::AuthRequired)
                } else {
                    None
                },
                (),
            ),
            r is Err ==> final(self)@ == old(self)@,
            r is Ok ==> final(self)@ == (PerformanceOracleState {
                admin: Some(admin),
                min_attesters,
                consensus_threshold_pct: Some(67),
                ..old(self)@
            }),
    {
        if self.admin.is_some() {
            return Err(Error::AlreadyInitialized);
        }
        if !auth.check(admin) {
            return Err(Error::AuthRequired);
        }
        self.admin = Some(admin);
        self.min_attesters = min_attesters;
        self.consensus_threshold_pct = Some(67);
        Ok(())
    }

    /// Authorises an attester; only the administrator may.
    pub fn authorize_attester(&mut self, auth: &Auth, admin: u64, attester: u64) -> (r: Result<(), Error>)
        requires
            old(self)@.wf(),
        ensures
            final(self)@.wf(),
            r == crate::common::outcome(
                if !auth.authorizes(admin) {
                    Some(Error::AuthRequired)
                } else if old(self)@.admin is None {
                    Some(Error::NotInitialized)
                } else if old(self)@.admin != Some(admin) {
                    Some(Error::Unauthorized)
                } else {
                    None
                },
                (),
            ),
            r is Err ==> final(self)@ == old(self)@,
            r is Ok ==> final(self)@ == (PerformanceOracleState {
                attesters: old(self)@.attesters.insert(attester, true),
                ..old(self)@
            }),
    {
        if !auth.check(admin) {
            return Err(Error::AuthRequired);
        }
        match self.admin {
            None => {
                return Err(Error::NotInitialized);
            },
            Some(a) => {
                if a != admin {
                    return Err(Error::Unauthorized);
                }
            },
        }
        self.attesters.insert(attester, true);
        Ok(())
    }

    fn find(list: &Vec<PerformanceAttestation>, attester: u64) -> (r: Option<usize>)
        ensures
            match r {
                Some(i) => i < list@.len() && list@[i as int].attester == attester,
                None => forall|i: int| 0 <= i < list@.len() ==> #[trigger] list@[i].attester != attester,
            },
    {
        let mut i: usize = 0;
        while i < list.len()
            invariant
                0 <= i <= list@.len(),
                forall|j: int| 0 <= j < i ==> #[trigger] list@[j].attester != attester,
            decreases list.len() - i,
        {
            if list[i].attester == attester {
                return Some(i);
            }
            i = i + 1;
        }
        None
    }

    /// Once a campaign has at least the minimum number of attestations,
    /// makes their average its consensus.
    fn _try_build_consensus(&mut self, campaign_id: u64, list: &Vec<PerformanceAttestation>, now: u64)
        requires
            0 < list@.len() <= u32::MAX,
        ensures
            final(self)@ == (PerformanceOracleState {
                consensus: if list@.len() >= old(self)@.min_attesters {
                    old(self)@.consensus.insert(campaign_id, consensus_of(campaign_id, list@, now))
                } else {
                    old(self)@.consensus
                },
                ..old(self)@
            }),
    {
        let total_attesters = list.len() as u32;
        if total_attesters < self.min_attesters {
            return;
        }
        let consensus = Self::averages(campaign_id, list, now);
        self.consensus.insert(campaign_id, consensus);
    }

    /// The average of a campaign's attestations.
    fn averages(campaign_id: u64, list: &Vec<PerformanceAttestation>, now: u64) -> (r: OracleConsensus)
        requires
            0 < list@.len() <= u32::MAX,
        ensures
            r == consensus_of(campaign_id, list@, now),
    {
        let ghost s = list@;
        let mut imp: u128 = 0;
        let mut clk: u128 = 0;
        let mut fr: u128 = 0;
        let mut q: u128 = 0;
        let mut i: usize = 0;
        while i < list.len()
            invariant
                0 <= i <= s.len(),
                s == list@,
                s.len() <= u32::MAX,
                imp == total(s.take(i as int), |a| impressions_of(a)),
                clk == total(s.take(i as int), |a| clicks_of(a)),
                fr == total(s.take(i as int), |a| fraud_rate_of(a)),
                q == total(s.take(i as int), |a| quality_of(a)),
            decreases list.len() - i,
        {
            proof {
                let t = s.take(i as int);
                lemma_total_bounds(t, |a| impressions_of(a), u64::MAX as int);
                lemma_total_bounds(t, |a| clicks_of(a), u64::MAX as int);
                lemma_total_bounds(t, |a| fraud_rate_of(a), u32::MAX as int);
                lemma_total_bounds(t, |a| quality_of(a), u32::MAX as int);
                assert(t.len() * (u64::MAX as int) <= (u32::MAX as int) * (u64::MAX as int)) by (nonlinear_arith)
                    requires
                        t.len() <= u32::MAX,
                ;
                assert(t.len() * (u32::MAX as int) <= (u32::MAX as int) * (u32::MAX as int)) by (nonlinear_arith)
                    requires
                        t.len() <= u32::MAX,
                ;
                assert(s.take(i + 1).drop_last() =~= t);
            }
            let a = list[i];
            imp = imp + a.impressions_verified as u128;
            clk = clk + a.clicks_verified as u128;
            fr = fr + a.fraud_rate as u128;
            q = q + a.quality_score as u128;
            i = i + 1;
        }
        proof {
            assert(s.take(s.len() as int) =~= s);
            lemma_average_bounds(s, |a| impressions_of(a), u64::MAX as int);
            lemma_average_bounds(s, |a| clicks_of(a), u64::MAX as int);
            lemma_average_bounds(s, |a| fraud_rate_of(a), u32::MAX as int);
            lemma_average_bounds(s, |a| quality_of(a), u32::MAX as int);
        }
        let n = list.len() as u128;
        OracleConsensus {
            campaign_id,
            total_attesters: list.len() as u32,
            avg_impressions: (imp / n) as u64,
            avg_clicks: (clk / n) as u64,
            avg_fraud_rate: (fr / n) as u32,
            avg_quality_score: (q / n) as u32,
            consensus_reached: true,
            last_updated: now,
        }
    }

    /// Records an authorised attester's attestation of a campaign, once per
    /// attester and campaign. Once the campaign has at least the minimum
    /// number of attestations, its consensus becomes their average.
    pub fn submit_attestation(
        &mut self,
        auth: &Auth,
        ledger: &Ledger,
        attester: u64,
        campaign_id: u64,
        impressions: u64,
        clicks: u64,
        fraud_rate: u32,
        quality_score: u32,
        data_hash: [u8; 32],
    ) -> (r: Result<(), Error>)
        requires
            old(self)@.wf(),
        ensures
            final(self)@.wf(),
            r == crate::common::outcome(
                if !auth.authorizes(attester) {
                    Some(Error::AuthRequired)
                } else if !(old(self)@.attesters.contains_key(attester) && old(self)@.attesters[attester]) {
                    Some(Error::NotAuthorizedAttester)
                } else if old(self)@.has_attested(campaign_id, attester) {
                    Some(Error::AlreadyAttested)
                } else if old(self)@.attestations_of(campaign_id).len() == u32::MAX {
                    Some(Error::Overflow)
                } else {
                    None
                },
                (),
            ),
            r is Err ==> final(self)@ == old(self)@,
            r is Ok ==> {
                let s = old(self)@.attestations_of(campaign_id).push(
                    PerformanceAttestation {
                        campaign_id,
                        attester,
                        impressions_verified: impressions,
                        clicks_verified: clicks,
                        fraud_rate,
                        quality_score,
                        data_hash,
                        attested_at: ledger.timestamp,
                        ledger_sequence: ledger.sequence,
                    },
                );
                final(self)@ == PerformanceOracleState {
                    attestations: old(self)@.attestations.insert(campaign_id, s),
                    consensus: if s.len() >= old(self)@.min_attesters {
                        old(self)@.consensus.insert(campaign_id, consensus_of(campaign_id, s, ledger.timestamp))
                    } else {
                        old(self)@.consensus
                    },
                    ..old(self)@
                }
            },
    {
        if !auth.check(attester) {
            return Err(Error::AuthRequired);
        }
        let is_auth = match self.attesters.get(&attester) {
            Some(b) => *b,
            None => false,
        };
        if !is_auth {
            return Err(Error::NotAuthorizedAttester);
        }
        let mut list = match self.attestations.get(&campaign_id) {
            Some(v) => v.clone(),
            None => Vec::new(),
        };
        assert(list@ == old(self)@.attestations_of(campaign_id));
        match Self::find(&list, attester) {
            Some(i) => {
                assert(old(self)@.attestations_of(campaign_id)[i as int].attester == attester);
                return Err(Error::AlreadyAttested);
            },
            None => {},
        }
        if list.len() >= u32::MAX as usize {
            return Err(Error::Overflow);
        }
        let attestation = PerformanceAttestation {
            campaign_id,
            attester,
            impressions_verified: impressions,
            clicks_verified: clicks,
            fraud_rate,
            quality_score,
            data_hash,
            attested_at: ledger.timestamp,
            ledger_sequence: ledger.sequence,
        };
        list.push(attestation);
        self._try_build_consensus(campaign_id, &list, ledger.timestamp);
        self.attestations.insert(campaign_id, list);
        proof {
            assert(self@.attestations =~= old(self)@.attestations.insert(campaign_id, list@));
        }
        Ok(())
    }

    /// An attester's attestation of a campaign, if made.
    pub fn get_attestation(&self, campaign_id: u64, attester: u64) -> (r: Option<PerformanceAttestation>)
        ensures
            match r {
                Some(a) => a.attester == attester && exists|i: int|
                    0 <= i < self@.attestations_of(campaign_id).len() && self@.attestations_of(campaign_id)[i]
                        == a,
                None => !self@.has_attested(campaign_id, attester),
            },
    {
        match self.attestations.get(&campaign_id) {
            Some(list) => {
                assert(list@ == self@.attestations_of(campaign_id));
                match Self::find(list, attester) {
                    Some(i) => Some(list[i]),
                    None => None,
                }
            },
            None => None,
        }
    }

    /// A campaign's consensus, once reached.
    pub fn get_consensus(&self, campaign_id: u64) -> (r: Option<OracleConsensus>)
        ensures
            r == (if self@.consensus.contains_key(campaign_id) {
                Some(self@.consensus[campaign_id])
            } else {
                None::<OracleConsensus>
            }),
    {
        match self.consensus.get(&campaign_id) {
            Some(c) => Some(*c),
            None => None,
        }
    }

    /// The number of attestations of a campaign.
    pub fn get_attestation_count(&self, campaign_id: u64) -> (r: u32)
        requires
            self@.wf(),
        ensures
            r == self@.attestations_of(campaign_id).len(),
    {
        match self.attestations.get(&campaign_id) {
            Some(list) => list.len() as u32,
            None => 0,
        }
    }
}

/// A consensus is the average of what was attested, rounded down: times the
/// number of attesters, each average is at most the sum of the attested
/// values and within one attester of it.
pub proof fn lemma_consensus_is_mean(campaign_id: u64, s: Seq<PerformanceAttestation>, now: u64)
    requires
        0 < s.len() <= u32::MAX,
    ensures
        ({
            let c = consensus_of(campaign_id, s, now);
            let n = s.len() as int;
            let imp = total(s, |a| impressions_of(a));
            let clk = total(s, |a| clicks_of(a));
            &&& c.total_attesters == n
            &&& c.avg_impressions * n <= imp < (c.avg_impressions + 1) * n
            &&& c.avg_clicks * n <= clk < (c.avg_clicks + 1) * n
            &&& c.consensus_reached
            &&& c.last_updated == now
        }),
{
    let n = s.len() as int;
    let imp = total(s, |a| impressions_of(a));
    let clk = total(s, |a| clicks_of(a));
    lemma_total_bounds(s, |a| impressions_of(a), u64::MAX as int);
    lemma_total_bounds(s, |a| clicks_of(a), u64::MAX as int);
    lemma_average_bounds(s, |a| impressions_of(a), u64::MAX as int);
    lemma_average_bounds(s, |a| clicks_of(a), u64::MAX as int);
    assert((imp / n) * n <= imp < (imp / n + 1) * n) by (nonlinear_arith)
        requires
            imp >= 0,
            n > 0,
    ;
    assert((clk / n) * n <= clk < (clk / n + 1) * n) by (nonlinear_arith)
        requires
            clk >= 0,
            n > 0,
    ;
}

/// The sum over attestations adds each one once: one more attestation adds
/// its value.
pub proof fn lemma_total_push(s: Seq<PerformanceAttestation>, a: PerformanceAttestation, f: spec_fn(PerformanceAttestation) -> int)
    ensures
        total(s.push(a), f) == total(s, f) + f(a),
{
    assert(s.push(a).drop_last() =~= s);
}

} // verus!
