//! Ad campaign orchestration: advertisers fund campaigns, verified
//! publishers are paid a fixed cost for each view they record, and
//! refundable campaigns can be cancelled for what is left of their budget.
use vstd::prelude::*;
use std::collections::BTreeMap;
use crate::common::{Auth, Error, Ledger, Party, Transfer, div_trunc, fits_i128, lemma_map_total_insert, map_total};

verus! {

/// The states of a campaign.
#[derive(Clone, Copy, PartialEq, Eq, Structural, Debug)]
pub enum CampaignStatus {
    Active,
    Paused,
    Completed,
    Cancelled,
    Expired,
}

/// A funded campaign.
#[derive(Clone, Copy, PartialEq, Eq, Structural, Debug)]
pub struct Campaign {
    pub advertiser: u64,
    pub campaign_type: u32,
    pub budget: i128,
    pub remaining_budget: i128,
    pub cost_per_view: i128,
    pub start_ledger: u32,
    pub end_ledger: u32,
    pub status: CampaignStatus,
    pub target_views: u64,
    pub current_views: u64,
    pub daily_view_limit: u64,
    pub refundable: bool,
    pub platform_fee: i128,
    pub created_at: u64,
    pub last_updated: u64,
}

/// The limits of a kind of campaign.
#[derive(Clone, Debug)]
pub struct CampaignType {
    pub name: String,
    pub min_duration: u32,
    pub max_duration: u32,
    pub min_budget: i128,
}

/// A publisher that the administrator has verified.
#[derive(Clone, Copy, PartialEq, Eq, Structural, Debug)]
pub struct VerifiedPublisher {
    pub verified: bool,
    pub reputation_score: u32,
    pub total_earnings: i128,
    pub join_ledger: u32,
    pub last_active: u64,
}

/// What an advertiser has funded.
#[derive(Clone, Copy, PartialEq, Eq, Structural, Debug)]
pub struct AdvertiserStats {
    pub total_campaigns: u32,
    pub active_campaigns: u32,
    pub total_spent: i128,
    pub total_views: u64,
    pub average_view_rate: u32,
    pub reputation_score: u32,
    pub last_campaign_id: u64,
    pub join_ledger: u32,
}

/// A campaign with what it has spent and how far it is toward its target.
#[derive(Clone, Copy, PartialEq, Eq, Structural, Debug)]
pub struct CampaignMetrics {
    pub campaign: Campaign,
    pub total_spent: i128,
    /// Views recorded as a percentage of the target, rounded down.
    pub completion_rate: u32,
}

/// The contract's storage, as values.
pub struct CampaignOrchestratorState {
    pub admin: Option<u64>,
    pub token: Option<u64>,
    pub min_campaign_amount: Option<i128>,
    pub platform_fee_pct: u32,
    pub campaign_counter: u64,
    pub total_platform_fees: i128,
    pub campaigns: Map<u64, Campaign>,
    pub campaign_types: Map<u32, CampaignType>,
    pub publishers: Map<u64, VerifiedPublisher>,
    pub advertiser_stats: Map<u64, AdvertiserStats>,
    /// Views recorded per campaign and day.
    pub daily_views: Map<(u64, u64), u64>,
}

/// The platform fee on a budget: `fee_pct` percent, rounded toward zero.
pub open spec fn fee_of(budget: i128, fee_pct: u32) -> int {
    div_trunc(budget * fee_pct, 100)
}

/// The platform fee a campaign was charged.
pub open spec fn fee_charged(c: Campaign) -> int {
    c.platform_fee as int
}

/// The platform fees charged for all the campaigns together.
pub open spec fn fees_charged(campaigns: Map<u64, Campaign>) -> int {
    map_total(campaigns, |c: Campaign| fee_charged(c))
}

/// Setting one campaign changes the fees charged by the difference in its fee.
pub proof fn lemma_fees_charged_insert(m: Map<u64, Campaign>, k: u64, v: Campaign)
    requires
        m.dom().finite(),
    ensures
        fees_charged(m.insert(k, v)) == fees_charged(m) - (if m.dom().contains(k) {
            m[k].platform_fee as int
        } else {
            0
        }) + v.platform_fee,
{
    lemma_map_total_insert(m, |c: Campaign| fee_charged(c), k, v);
}

impl CampaignOrchestratorState {
    /// What every reachable state satisfies: the campaigns are numbered from
    /// 1 to the campaign count, the platform's fee total is the sum of the
    /// fees of its campaigns, and there are no campaign types before the
    /// contract is initialised.
    pub open spec fn wf(self) -> bool {
        &&& self.campaigns.dom().finite()
        &&& forall|k: u64| #[trigger] self.campaigns.contains_key(k) <==> 1 <= k <= self.campaign_counter
        &&& self.total_platform_fees == fees_charged(self.campaigns)
        &&& self.admin is None ==> self.campaign_counter == 0 && self.campaign_types.dom() =~= Set::<u32>::empty()
    }

    /// An advertiser's statistics after funding campaign `campaign_id` with `budget`.
    pub open spec fn stats_after(self, advertiser: u64, campaign_id: u64, budget: i128, sequence: u32) -> AdvertiserStats {
        if self.advertiser_stats.contains_key(advertiser) {
            let s = self.advertiser_stats[advertiser];
            AdvertiserStats {
                total_campaigns: (s.total_campaigns + 1) as u32,
                active_campaigns: (s.active_campaigns + 1) as u32,
                total_spent: (s.total_spent + budget) as i128,
                last_campaign_id: campaign_id,
                ..s
            }
        } else {
            AdvertiserStats {
                total_campaigns: 1,
                active_campaigns: 1,
                total_spent: budget,
                total_views: 0,
                average_view_rate: 0,
                reputation_score: 100,
                last_campaign_id: campaign_id,
                join_ledger: sequence,
            }
        }
    }

    /// Whether updating an advertiser's statistics leaves the integer ranges.
    pub open spec fn stats_overflow(self, advertiser: u64, budget: i128) -> bool {
        self.advertiser_stats.contains_key(advertiser) && {
            let s = self.advertiser_stats[advertiser];
            s.total_campaigns == u32::MAX || s.active_campaigns == u32::MAX || !fits_i128(s.total_spent + budget)
        }
    }

    pub open spec fn create_campaign_error(
        self,
        auth: Auth,
        ledger: Ledger,
        advertiser: u64,
        campaign_type: u32,
        budget: i128,
        duration: u32,
    ) -> Option<Error> {
        let t = self.campaign_types[campaign_type];
        let fee = fee_of(budget, self.platform_fee_pct);
        if !auth.authorizes(advertiser) {
            Some(Error::AuthRequired)
        } else if !self.campaign_types.contains_key(campaign_type) {
            Some(Error::CampaignTypeNotFound)
        } else if budget < t.min_budget {
            Some(Error::BudgetTooLow)
        } else if duration < t.min_duration || duration > t.max_duration {
            Some(Error::InvalidDuration)
        } else if self.campaign_counter == u64::MAX || !fits_i128(budget * self.platform_fee_pct) {
            Some(Error::Overflow)
        } else if self.token is None {
            Some(Error::NotInitialized)
        } else if !fits_i128(budget + fee) || ledger.sequence + duration > u32::MAX || !fits_i128(
            self.total_platform_fees + fee,
        ) || self.stats_overflow(advertiser, budget) {
            Some(Error::Overflow)
        } else {
            None
        }
    }

    /// Views a campaign has recorded on a day.
    pub open spec fn views_on(self, campaign_id: u64, day: u64) -> u64 {
        if self.daily_views.contains_key((campaign_id, day)) {
            self.daily_views[(campaign_id, day)]
        } else {
            0
        }
    }

    pub open spec fn record_view_error(self, auth: Auth, ledger: Ledger, campaign_id: u64, publisher: u64) -> Option<
        Error,
    > {
        let c = self.campaigns[campaign_id];
        let p = self.publishers[publisher];
        if !auth.authorizes(publisher) {
            Some(Error::AuthRequired)
        } else if !self.campaigns.contains_key(campaign_id) {
            Some(Error::CampaignNotFound)
        } else if !self.publishers.contains_key(publisher) || !p.verified {
            Some(Error::PublisherNotVerified)
        } else if c.status != CampaignStatus::Active {
            Some(Error::CampaignNotActive)
        } else if ledger.sequence > c.end_ledger {
            Some(Error::CampaignExpired)
        } else if c.remaining_budget < c.cost_per_view {
            Some(Error::InsufficientBudget)
        } else if self.views_on(campaign_id, ledger.timestamp / 86_400) >= c.daily_view_limit {
            Some(Error::DailyViewLimitReached)
        } else if self.token is None {
            Some(Error::NotInitialized)
        } else if !fits_i128(c.remaining_budget - c.cost_per_view) || c.current_views == u64::MAX
            || !fits_i128(p.total_earnings + c.cost_per_view) {
            Some(Error::Overflow)
        } else {
            None
        }
    }

    /// Whether `caller` may change campaign `campaign_id`: the campaign exists
    /// and `caller` funded it.
    pub open spec fn owner_error(self, auth: Auth, advertiser: u64, campaign_id: u64) -> Option<Error> {
        if !auth.authorizes(advertiser) {
            Some(Error::AuthRequired)
        } else if !self.campaigns.contains_key(campaign_id) {
            Some(Error::CampaignNotFound)
        } else if self.campaigns[campaign_id].advertiser != advertiser {
            Some(Error::Unauthorized)
        } else {
            None
        }
    }

    pub open spec fn admin_error(self, auth: Auth, admin: u64) -> Option<Error> {
        if !auth.authorizes(admin) {
            Some(Error::AuthRequired)
        } else if self.admin is None {
            Some(Error::NotInitialized)
        } else if self.admin != Some(admin) {
            Some(Error::Unauthorized)
        } else {
            None
        }
    }
}

/// The campaign-orchestrator contract.
pub struct CampaignOrchestratorContract {
    admin: Option<u64>,
    token: Option<u64>,
    min_campaign_amount: Option<i128>,
    platform_fee_pct: u32,
    campaign_counter: u64,
    total_platform_fees: i128,
    campaigns: BTreeMap<u64, Campaign>,
    campaign_types: BTreeMap<u32, CampaignType>,
    publishers: BTreeMap<u64, VerifiedPublisher>,
    advertiser_stats: BTreeMap<u64, AdvertiserStats>,
    daily_views: BTreeMap<(u64, u64), u64>,
}

impl View for CampaignOrchestratorContract {
    type V = CampaignOrchestratorState;

    closed spec fn view(&self) -> CampaignOrchestratorState {
        CampaignOrchestratorState {
            admin: self.admin,
            token: self.token,
            min_campaign_amount: self.min_campaign_amount,
            platform_fee_pct: self.platform_fee_pct,
            campaign_counter: self.campaign_counter,
            total_platform_fees: self.total_platform_fees,
            campaigns: self.campaigns@,
            campaign_types: self.campaign_types@,
            publishers: self.publishers@,
            advertiser_stats: self.advertiser_stats@,
            daily_views: self.daily_views@,
        }
    }
}

impl CampaignOrchestratorContract {
    /// A contract with empty storage; the fee rate reads as 2% until set.
    pub fn new() -> (c: Self)
        ensures
            c@.wf(),
            c@ == (CampaignOrchestratorState {
                admin: None,
                token: None,
                min_campaign_amount: None,
                platform_fee_pct: 2,
                campaign_counter: 0,
                total_platform_fees: 0,
                campaigns: Map::empty(),
                campaign_types: Map::empty(),
                publishers: Map::empty(),
                advertiser_stats: Map::empty(),
                daily_views: Map::empty(),
            }),
    {
        CampaignOrchestratorContract {
            admin: None,
            token: None,
            min_campaign_amount: None,
            platform_fee_pct: 2,
            campaign_counter: 0,
            total_platform_fees: 0,
            campaigns: BTreeMap::new(),
            campaign_types: BTreeMap::new(),
            publishers: BTreeMap::new(),
            advertiser_stats: BTreeMap::new(),
            daily_views: BTreeMap::new(),
        }
    }

    /// Stores the administrator and token, a 2% platform fee, a minimum
    /// campaign amount of 1_000_000, and the "Standard" campaign type (id 1:
    /// 100 to 10_000 ledgers, budget at least 1_000_000).
    pub fn initialize(&mut self, auth: &Auth, admin: u64, token_address: u64) -> (r: Result<(), Error>)
        requires
            old(self)@.wf(),
        ensures
            final(self)@.wf(),
            r == crate::common::outcome(
                if old(self)@.admin is Some {
                    Some(Error::AlreadyInitialized)
                } else if !auth.authorizes(admin) {
                    Some(Error::AuthRequired)
                } else {
                    None
                },
                (),
            ),
            r is Err ==> final(self)@ == old(self)@,
            r is Ok ==> {
                &&& final(self)@ == CampaignOrchestratorState {
                    admin: Some(admin),
                    token: Some(token_address),
                    min_campaign_amount: Some(1_000_000),
                    platform_fee_pct: 2,
                    campaign_counter: 0,
                    total_platform_fees: 0,
                    campaign_types: final(self)@.campaign_types,
                    ..old(self)@
                }
                &&& final(self)@.campaign_types.dom() == old(self)@.campaign_types.dom().insert(1)
                &&& forall|k: u32| k != 1 && #[trigger] old(self)@.campaign_types.contains_key(k)
                    ==> final(self)@.campaign_types[k] == old(self)@.campaign_types[k]
                &&& final(self)@.campaign_types[1].name@ == "Standard"@
                &&& final(self)@.campaign_types[1].min_duration == 100
                &&& final(self)@.campaign_types[1].max_duration == 10_000
                &&& final(self)@.campaign_types[1].min_budget == 1_000_000
            },
    {
        if self.admin.is_some() {
            return Err(Error::AlreadyInitialized);
        }
        if !auth.check(admin) {
            return Err(Error::AuthRequired);
        }
        proof {
            assert(self@.campaigns.dom() =~= Set::<u64>::empty());
            crate::common::lemma_map_total_empty(self@.campaigns, |c: Campaign| fee_charged(c));
        }
        self.admin = Some(admin);
        self.token = Some(token_address);
        self.min_campaign_amount = Some(1_000_000);
        self.platform_fee_pct = 2;
        self.campaign_counter = 0;
        self.total_platform_fees = 0;
        let default_type = CampaignType {
            name: "Standard".to_owned(),
            min_duration: 100,
            max_duration: 10_000,
            min_budget: 1_000_000,
        };
        self.campaign_types.insert(1, default_type);
        Ok(())
    }

    /// Funds a new campaign: takes its budget plus the platform fee from the
    /// advertiser, and returns the campaign's id, one more than the last.
    pub fn create_campaign(
        &mut self,
        auth: &Auth,
        ledger: &Ledger,
        advertiser: u64,
        campaign_type: u32,
        budget: i128,
        cost_per_view: i128,
        duration: u32,
        target_views: u64,
        daily_view_limit: u64,
        refundable: bool,
    ) -> (r: Result<(u64, Vec<Transfer>), Error>)
        requires
            old(self)@.wf(),
        ensures
            final(self)@.wf(),
            match old(self)@.create_campaign_error(*auth, *ledger, advertiser, campaign_type, budget, duration) {
                Some(e) => r == Err::<(u64, Vec<Transfer>), Error>(e) && final(self)@ == old(self)@,
                None => {
                    let id = (old(self)@.campaign_counter + 1) as u64;
                    let fee = fee_of(budget, old(self)@.platform_fee_pct);
                    &&& r matches Ok((i, t)) && i == id && t@ == seq![
                        Transfer {
                            token: old(self)@.token.unwrap(),
                            from: Party::Account(advertiser),
                            to: Party::Contract,
                            amount: (budget + fee) as i128,
                        },
                    ]
                    &&& final(self)@ == CampaignOrchestratorState {
                        campaign_counter: id,
                        total_platform_fees: (old(self)@.total_platform_fees + fee) as i128,
                        campaigns: old(self)@.campaigns.insert(
                            id,
                            Campaign {
                                advertiser,
                                campaign_type,
                                budget,
                                remaining_budget: budget,
                                cost_per_view,
                                start_ledger: ledger.sequence,
                                end_ledger: (ledger.sequence + duration) as u32,
                                status: CampaignStatus::Active,
                                target_views,
                                current_views: 0,
                                daily_view_limit,
                                refundable,
                                platform_fee: fee as i128,
                                created_at: ledger.timestamp,
                                last_updated: ledger.timestamp,
                            },
                        ),
                        advertiser_stats: old(self)@.advertiser_stats.insert(
                            advertiser,
                            old(self)@.stats_after(advertiser, id, budget, ledger.sequence),
                        ),
                        ..old(self)@
                    }
                },
            },
    {
        if !auth.check(advertiser) {
            return Err(Error::AuthRequired);
        }
        let (min_budget, min_duration, max_duration) = match self.campaign_types.get(&campaign_type) {
            Some(t) => (t.min_budget, t.min_duration, t.max_duration),
            None => {
                return Err(Error::CampaignTypeNotFound);
            },
        };
        if budget < min_budget {
            return Err(Error::BudgetTooLow);
        }
        if duration < min_duration || duration > max_duration {
            return Err(Error::InvalidDuration);
        }
        if self.campaign_counter == u64::MAX {
            return Err(Error::Overflow);
        }
        let campaign_id = self.campaign_counter + 1;
        let scaled = match budget.checked_mul(self.platform_fee_pct as i128) {
            Some(x) => x,
            None => {
                return Err(Error::Overflow);
            },
        };
        let platform_fee = match scaled.checked_div(100) {
            Some(q) => q,
            None => {
                return Err(Error::Overflow);
            },
        };
        let token = match self.token {
            Some(t) => t,
            None => {
                return Err(Error::NotInitialized);
            },
        };
        let total_charge = match budget.checked_add(platform_fee) {
            Some(x) => x,
            None => {
                return Err(Error::Overflow);
            },
        };
        let end_ledger = match ledger.sequence.checked_add(duration) {
            Some(x) => x,
            None => {
                return Err(Error::Overflow);
            },
        };
        let total_fees = match self.total_platform_fees.checked_add(platform_fee) {
            Some(x) => x,
            None => {
                return Err(Error::Overflow);
            },
        };
        let campaign = Campaign {
            advertiser,
            campaign_type,
            budget,
            remaining_budget: budget,
            cost_per_view,
            start_ledger: ledger.sequence,
            end_ledger,
            status: CampaignStatus::Active,
            target_views,
            current_views: 0,
            daily_view_limit,
            refundable,
            platform_fee,
            created_at: ledger.timestamp,
            last_updated: ledger.timestamp,
        };
        match self._update_advertiser_stats(advertiser, campaign_id, budget, ledger.sequence) {
            Ok(()) => {},
            Err(e) => {
                return Err(e);
            },
        }
        proof {
            assert(!self@.campaigns.contains_key(campaign_id));
            lemma_fees_charged_insert(self.campaigns@, campaign_id, campaign);
        }
        self.campaigns.insert(campaign_id, campaign);
        self.campaign_counter = campaign_id;
        self.total_platform_fees = total_fees;
        let mut transfers: Vec<Transfer> = Vec::new();
        transfers.push(
            Transfer { token, from: Party::Account(advertiser), to: Party::Contract, amount: total_charge },
        );
        Ok((campaign_id, transfers))
    }

    /// Counts a new campaign of `budget` in the advertiser's statistics,
    /// starting them if the advertiser has none.
    fn _update_advertiser_stats(&mut self, advertiser: u64, campaign_id: u64, budget: i128, sequence: u32) -> (r:
        Result<(), Error>)
        ensures
            r is Err <==> old(self)@.stats_overflow(advertiser, budget),
            r is Err ==> r == Err::<(), Error>(Error::Overflow) && final(self)@ == old(self)@,
            r is Ok ==> final(self)@ == (CampaignOrchestratorState {
                advertiser_stats: old(self)@.advertiser_stats.insert(
                    advertiser,
                    old(self)@.stats_after(advertiser, campaign_id, budget, sequence),
                ),
                ..old(self)@
            }),
    {
        let new_stats = match self.advertiser_stats.get(&advertiser) {
            Some(s) => {
                let mut s = *s;
                if s.total_campaigns == u32::MAX || s.active_campaigns == u32::MAX {
                    return Err(Error::Overflow);
                }
                let spent = match s.total_spent.checked_add(budget) {
                    Some(x) => x,
                    None => {
                        return Err(Error::Overflow);
                    },
                };
                s.total_campaigns = s.total_campaigns + 1;
                s.active_campaigns = s.active_campaigns + 1;
                s.total_spent = spent;
                s.last_campaign_id = campaign_id;
                s
            },
            None => AdvertiserStats {
                total_campaigns: 1,
                active_campaigns: 1,
                total_spent: budget,
                total_views: 0,
                average_view_rate: 0,
                reputation_score: 100,
                last_campaign_id: campaign_id,
                join_ledger: sequence,
            },
        };
        self.advertiser_stats.insert(advertiser, new_stats);
        Ok(())
    }

    /// Credits `amount` to a verified publisher's earnings and marks it active now.
    fn _update_publisher_earnings(&mut self, ledger: &Ledger, publisher: u64, amount: i128) -> (r: Result<(), Error>)
        requires
            old(self)@.publishers.contains_key(publisher),
        ensures
            r is Err <==> !fits_i128(old(self)@.publishers[publisher].total_earnings + amount),
            r is Err ==> r == Err::<(), Error>(Error::Overflow) && final(self)@ == old(self)@,
            r is Ok ==> final(self)@ == (CampaignOrchestratorState {
                publishers: old(self)@.publishers.insert(
                    publisher,
                    VerifiedPublisher {
                        total_earnings: (old(self)@.publishers[publisher].total_earnings + amount) as i128,
                        last_active: ledger.timestamp,
                        ..old(self)@.publishers[publisher]
                    },
                ),
                ..old(self)@
            }),
    {
        let mut data = match self.publishers.get(&publisher) {
            Some(p) => *p,
            None => {
                return Err(Error::Overflow);
            },
        };
        data.total_earnings = match data.total_earnings.checked_add(amount) {
            Some(x) => x,
            None => {
                return Err(Error::Overflow);
            },
        };
        data.last_active = ledger.timestamp;
        self.publishers.insert(publisher, data);
        Ok(())
    }

    /// Records a view by a verified publisher on an active campaign: pays the
    /// publisher the campaign's cost per view, within the campaign's end,
    /// budget and daily limit, and completes the campaign when it reaches
    /// its target.
    pub fn record_view(&mut self, auth: &Auth, ledger: &Ledger, campaign_id: u64, publisher: u64) -> (r: Result<
        Vec<Transfer>,
        Error,
    >)
        requires
            old(self)@.wf(),
        ensures
            final(self)@.wf(),
            match old(self)@.record_view_error(*auth, *ledger, campaign_id, publisher) {
                Some(e) => r == Err::<Vec<Transfer>, Error>(e) && final(self)@ == old(self)@,
                None => {
                    let c = old(self)@.campaigns[campaign_id];
                    let p = old(self)@.publishers[publisher];
                    let day = ledger.timestamp / 86_400;
                    let views = (c.current_views + 1) as u64;
                    &&& r matches Ok(t) && t@ == seq![
                        Transfer {
                            token: old(self)@.token.unwrap(),
                            from: Party::Contract,
                            to: Party::Account(publisher),
                            amount: c.cost_per_view,
                        },
                    ]
                    &&& final(self)@ == CampaignOrchestratorState {
                        campaigns: old(self)@.campaigns.insert(
                            campaign_id,
                            Campaign {
                                remaining_budget: (c.remaining_budget - c.cost_per_view) as i128,
                                current_views: views,
                                last_updated: ledger.timestamp,
                                status: if views >= c.target_views {
                                    CampaignStatus::Completed
                                } else {
                                    c.status
                                },
                                ..c
                            },
                        ),
                        daily_views: old(self)@.daily_views.insert(
                            (campaign_id, day),
                            (old(self)@.views_on(campaign_id, day) + 1) as u64,
                        ),
                        publishers: old(self)@.publishers.insert(
                            publisher,
                            VerifiedPublisher {
                                total_earnings: (p.total_earnings + c.cost_per_view) as i128,
                                last_active: ledger.timestamp,
                                ..p
                            },
                        ),
                        ..old(self)@
                    }
                },
            },
    {
        if !auth.check(publisher) {
            return Err(Error::AuthRequired);
        }
        let mut campaign = match self.campaigns.get(&campaign_id) {
            Some(c) => *c,
            None => {
                return Err(Error::CampaignNotFound);
            },
        };
        let publisher_data = match self.publishers.get(&publisher) {
            Some(p) => *p,
            None => {
                return Err(Error::PublisherNotVerified);
            },
        };
        if !publisher_data.verified {
            return Err(Error::PublisherNotVerified);
        }
        match campaign.status {
            CampaignStatus::Active => {},
            _ => {
                return Err(Error::CampaignNotActive);
            },
        }
        if ledger.sequence > campaign.end_ledger {
            return Err(Error::CampaignExpired);
        }
        if campaign.remaining_budget < campaign.cost_per_view {
            return Err(Error::InsufficientBudget);
        }
        let current_day = ledger.timestamp / 86_400;
        let daily_views: u64 = match self.daily_views.get(&(campaign_id, current_day)) {
            Some(v) => *v,
            None => 0,
        };
        if daily_views >= campaign.daily_view_limit {
            return Err(Error::DailyViewLimitReached);
        }
        let token = match self.token {
            Some(t) => t,
            None => {
                return Err(Error::NotInitialized);
            },
        };
        let remaining = match campaign.remaining_budget.checked_sub(campaign.cost_per_view) {
            Some(x) => x,
            None => {
                return Err(Error::Overflow);
            },
        };
        if campaign.current_views == u64::MAX {
            return Err(Error::Overflow);
        }
        match self._update_publisher_earnings(ledger, publisher, campaign.cost_per_view) {
            Ok(()) => {},
            Err(e) => {
                return Err(e);
            },
        }
        campaign.remaining_budget = remaining;
        campaign.current_views = campaign.current_views + 1;
        campaign.last_updated = ledger.timestamp;
        if campaign.current_views >= campaign.target_views {
            campaign.status = CampaignStatus::Completed;
        }
        let cost = campaign.cost_per_view;
        proof {
            lemma_fees_charged_insert(self.campaigns@, campaign_id, campaign);
        }
        self.campaigns.insert(campaign_id, campaign);
        self.daily_views.insert((campaign_id, current_day), daily_views + 1);
        let mut transfers: Vec<Transfer> = Vec::new();
        transfers.push(Transfer { token, from: Party::Contract, to: Party::Account(publisher), amount: cost });
        Ok(transfers)
    }

    /// Sets a campaign's status, at the request of its advertiser.
    fn set_status(
        &mut self,
        auth: &Auth,
        ledger: &Ledger,
        advertiser: u64,
        campaign_id: u64,
        status: CampaignStatus,
    ) -> (r: Result<(), Error>)
        requires
            old(self)@.wf(),
        ensures
            final(self)@.wf(),
            r == crate::common::outcome(old(self)@.owner_error(*auth, advertiser, campaign_id), ()),
            r is Err ==> final(self)@ == old(self)@,
            r is Ok ==> final(self)@ == (CampaignOrchestratorState {
                campaigns: old(self)@.campaigns.insert(
                    campaign_id,
                    Campaign { status, last_updated: ledger.timestamp, ..old(self)@.campaigns[campaign_id] },
                ),
                ..old(self)@
            }),
    {
        if !auth.check(advertiser) {
            return Err(Error::AuthRequired);
        }
        let mut campaign = match self.campaigns.get(&campaign_id) {
            Some(c) => *c,
            None => {
                return Err(Error::CampaignNotFound);
            },
        };
        if campaign.advertiser != advertiser {
            return Err(Error::Unauthorized);
        }
        campaign.status = status;
        campaign.last_updated = ledger.timestamp;
        proof {
            lemma_fees_charged_insert(self.campaigns@, campaign_id, campaign);
        }
        self.campaigns.insert(campaign_id, campaign);
        Ok(())
    }

    /// Pauses a campaign; only its advertiser may.
    pub fn pause_campaign(&mut self, auth: &Auth, ledger: &Ledger, advertiser: u64, campaign_id: u64) -> (r: Result<
        (),
        Error,
    >)
        requires
            old(self)@.wf(),
        ensures
            final(self)@.wf(),
            r == crate::common::outcome(old(self)@.owner_error(*auth, advertiser, campaign_id), ()),
            r is Err ==> final(self)@ == old(self)@,
            r is Ok ==> final(self)@ == (CampaignOrchestratorState {
                campaigns: old(self)@.campaigns.insert(
                    campaign_id,
                    Campaign {
                        status: CampaignStatus::Paused,
                        last_updated: ledger.timestamp,
                        ..old(self)@.campaigns[campaign_id]
                    },
                ),
                ..old(self)@
            }),
    {
        self.set_status(auth, ledger, advertiser, campaign_id, CampaignStatus::Paused)
    }

    /// Makes a campaign active again; only its advertiser may.
    pub fn resume_campaign(&mut self, auth: &Auth, ledger: &Ledger, advertiser: u64, campaign_id: u64) -> (r: Result<
        (),
        Error,
    >)
        requires
            old(self)@.wf(),
        ensures
            final(self)@.wf(),
            r == crate::common::outcome(old(self)@.owner_error(*auth, advertiser, campaign_id), ()),
            r is Err ==> final(self)@ == old(self)@,
            r is Ok ==> final(self)@ == (CampaignOrchestratorState {
                campaigns: old(self)@.campaigns.insert(
                    campaign_id,
                    Campaign {
                        status: CampaignStatus::Active,
                        last_updated: ledger.timestamp,
                        ..old(self)@.campaigns[campaign_id]
                    },
                ),
                ..old(self)@
            }),
    {
        self.set_status(auth, ledger, advertiser, campaign_id, CampaignStatus::Active)
    }

    /// Cancels a refundable campaign and returns what is left of its budget
    /// to the advertiser.
    pub fn cancel_campaign(&mut self, auth: &Auth, ledger: &Ledger, advertiser: u64, campaign_id: u64) -> (r: Result<
        Vec<Transfer>,
        Error,
    >)
        requires
            old(self)@.wf(),
        ensures
            final(self)@.wf(),
            ({
                let c = old(self)@.campaigns[campaign_id];
                let err = match old(self)@.owner_error(*auth, advertiser, campaign_id) {
                    Some(e) => Some(e),
                    None => if !c.refundable {
                        Some(Error::CampaignNotRefundable)
                    } else if c.remaining_budget > 0 && old(self)@.token is None {
                        Some(Error::NotInitialized)
                    } else {
                        None
                    },
                };
                match err {
                    Some(e) => r == Err::<Vec<Transfer>, Error>(e) && final(self)@ == old(self)@,
                    None => {
                        &&& r matches Ok(t) && t@ == (if c.remaining_budget > 0 {
                            seq![
                                Transfer {
                                    token: old(self)@.token.unwrap(),
                                    from: Party::Contract,
                                    to: Party::Account(advertiser),
                                    amount: c.remaining_budget,
                                },
                            ]
                        } else {
                            Seq::empty()
                        })
                        &&& final(self)@ == CampaignOrchestratorState {
                            campaigns: old(self)@.campaigns.insert(
                                campaign_id,
                                Campaign {
                                    remaining_budget: 0,
                                    status: CampaignStatus::Cancelled,
                                    last_updated: ledger.timestamp,
                                    ..c
                                },
                            ),
                            ..old(self)@
                        }
                    },
                }
            }),
    {
        if !auth.check(advertiser) {
            return Err(Error::AuthRequired);
        }
        let mut campaign = match self.campaigns.get(&campaign_id) {
            Some(c) => *c,
            None => {
                return Err(Error::CampaignNotFound);
            },
        };
        if campaign.advertiser != advertiser {
            return Err(Error::Unauthorized);
        }
        if !campaign.refundable {
            return Err(Error::CampaignNotRefundable);
        }
        let refund = campaign.remaining_budget;
        let mut transfers: Vec<Transfer> = Vec::new();
        if refund > 0 {
            match self.token {
                Some(token) => {
                    transfers.push(
                        Transfer { token, from: Party::Contract, to: Party::Account(advertiser), amount: refund },
                    );
                },
                None => {
                    return Err(Error::NotInitialized);
                },
            }
        }
        campaign.remaining_budget = 0;
        campaign.status = CampaignStatus::Cancelled;
        campaign.last_updated = ledger.timestamp;
        proof {
            lemma_fees_charged_insert(self.campaigns@, campaign_id, campaign);
        }
        self.campaigns.insert(campaign_id, campaign);
        proof {
            if refund <= 0 {
                assert(transfers@ =~= Seq::<Transfer>::empty());
            }
        }
        Ok(transfers)
    }

    /// Marks a publisher as verified with an initial reputation score; only
    /// the administrator may.
    pub fn verify_publisher(&mut self, auth: &Auth, ledger: &Ledger, admin: u64, publisher: u64, initial_score: u32) -> (r:
        Result<(), Error>)
        requires
            old(self)@.wf(),
        ensures
            final(self)@.wf(),
            r == crate::common::outcome(old(self)@.admin_error(*auth, admin), ()),
            r is Err ==> final(self)@ == old(self)@,
            r is Ok ==> final(self)@ == (CampaignOrchestratorState {
                publishers: old(self)@.publishers.insert(
                    publisher,
                    VerifiedPublisher {
                        verified: true,
                        reputation_score: initial_score,
                        total_earnings: 0,
                        join_ledger: ledger.sequence,
                        last_active: ledger.timestamp,
                    },
                ),
                ..old(self)@
            }),
    {
        match self.check_admin(auth, admin) {
            Ok(()) => {},
            Err(e) => {
                return Err(e);
            },
        }
        let data = VerifiedPublisher {
            verified: true,
            reputation_score: initial_score,
            total_earnings: 0,
            join_ledger: ledger.sequence,
            last_active: ledger.timestamp,
        };
        self.publishers.insert(publisher, data);
        Ok(())
    }

    /// Sets the platform fee, at most 10%; only the administrator may.
    pub fn set_platform_fee(&mut self, auth: &Auth, admin: u64, fee_pct: u32) -> (r: Result<(), Error>)
        requires
            old(self)@.wf(),
        ensures
            final(self)@.wf(),
            r == crate::common::outcome(
                match old(self)@.admin_error(*auth, admin) {
                    Some(e) => Some(e),
                    None => if fee_pct > 10 {
                        Some(Error::FeeTooHigh)
                    } else {
                        None
                    },
                },
                (),
            ),
            r is Err ==> final(self)@ == old(self)@,
            r is Ok ==> final(self)@ == (CampaignOrchestratorState { platform_fee_pct: fee_pct, ..old(self)@ }),
    {
        match self.check_admin(auth, admin) {
            Ok(()) => {},
            Err(e) => {
                return Err(e);
            },
        }
        if fee_pct > 10 {
            return Err(Error::FeeTooHigh);
        }
        self.platform_fee_pct = fee_pct;
        Ok(())
    }

    fn check_admin(&self, auth: &Auth, admin: u64) -> (r: Result<(), Error>)
        ensures
            r == crate::common::outcome(self@.admin_error(*auth, admin), ()),
    {
        if !auth.check(admin) {
            return Err(Error::AuthRequired);
        }
        match self.admin {
            None => Err(Error::NotInitialized),
            Some(a) => if a != admin {
                Err(Error::Unauthorized)
            } else {
                Ok(())
            },
        }
    }

    /// A campaign, if it exists.
    pub fn get_campaign(&self, campaign_id: u64) -> (r: Option<Campaign>)
        ensures
            r == (if self@.campaigns.contains_key(campaign_id) {
                Some(self@.campaigns[campaign_id])
            } else {
                None::<Campaign>
            }),
    {
        match self.campaigns.get(&campaign_id) {
            Some(c) => Some(*c),
            None => None,
        }
    }

    /// A campaign with its spending (`budget - remaining_budget`) and its
    /// views as a percentage of its target (0 without a target).
    pub fn get_campaign_metrics(&self, campaign_id: u64) -> (r: Result<Option<CampaignMetrics>, Error>)
        ensures
            !self@.campaigns.contains_key(campaign_id) ==> r == Ok::<Option<CampaignMetrics>, Error>(None),
            self@.campaigns.contains_key(campaign_id) ==> ({
                let c = self@.campaigns[campaign_id];
                if !fits_i128(c.budget - c.remaining_budget) || (c.target_views > 0 && c.current_views * 100
                    > u64::MAX) {
                    r == Err::<Option<CampaignMetrics>, Error>(Error::Overflow)
                } else {
                    r == Ok::<Option<CampaignMetrics>, Error>(
                        Some(
                            CampaignMetrics {
                                campaign: c,
                                total_spent: (c.budget - c.remaining_budget) as i128,
                                completion_rate: if c.target_views > 0 {
                                    ((c.current_views * 100) / (c.target_views as int)) as u32
                                } else {
                                    0
                                },
                            },
                        ),
                    )
                }
            }),
    {
        let campaign = match self.campaigns.get(&campaign_id) {
            Some(c) => *c,
            None => {
                return Ok(None);
            },
        };
        let total_spent = match campaign.budget.checked_sub(campaign.remaining_budget) {
            Some(x) => x,
            None => {
                return Err(Error::Overflow);
            },
        };
        let completion_rate: u32 = if campaign.target_views > 0 {
            let scaled = match campaign.current_views.checked_mul(100) {
                Some(x) => x,
                None => {
                    return Err(Error::Overflow);
                },
            };
            #[verifier::truncate] ((scaled / campaign.target_views) as u32)
        } else {
            0
        };
        Ok(Some(CampaignMetrics { campaign, total_spent, completion_rate }))
    }

    /// A publisher's record, if verified.
    pub fn get_publisher_metrics(&self, publisher: u64) -> (r: Option<VerifiedPublisher>)
        ensures
            r == (if self@.publishers.contains_key(publisher) {
                Some(self@.publishers[publisher])
            } else {
                None::<VerifiedPublisher>
            }),
    {
        match self.publishers.get(&publisher) {
            Some(p) => Some(*p),
            None => None,
        }
    }

    /// An advertiser's statistics, if it has funded a campaign.
    pub fn get_advertiser_stats(&self, advertiser: u64) -> (r: Option<AdvertiserStats>)
        ensures
            r == (if self@.advertiser_stats.contains_key(advertiser) {
                Some(self@.advertiser_stats[advertiser])
            } else {
                None::<AdvertiserStats>
            }),
    {
        match self.advertiser_stats.get(&advertiser) {
            Some(s) => Some(*s),
            None => None,
        }
    }

    /// The number of campaigns created.
    pub fn get_campaign_count(&self) -> (r: u64)
        ensures
            r == self@.campaign_counter,
    {
        self.campaign_counter
    }
}

/// What a campaign has spent is its cost per view times its views: a view
/// spends exactly one cost per view, so recording one keeps the balance.
pub proof fn lemma_view_keeps_spend(c: Campaign)
    requires
        c.budget - c.remaining_budget == c.cost_per_view * c.current_views,
    ensures
        c.budget - (c.remaining_budget - c.cost_per_view) == c.cost_per_view * (c.current_views + 1),
{
    assert(c.cost_per_view * (c.current_views + 1) == c.cost_per_view * c.current_views + c.cost_per_view)
        by (nonlinear_arith);
}

/// A new campaign has spent nothing and recorded no view.
pub proof fn lemma_new_campaign_spend(budget: i128, cost_per_view: i128)
    ensures
        budget - budget == cost_per_view * 0,
{
}

/// The platform fee on a non-negative budget is at most `fee_pct` percent of
/// it, so at most a tenth of it under the largest fee allowed.
pub proof fn lemma_fee_bounds(budget: i128, fee_pct: u32)
    requires
        budget >= 0,
        fee_pct <= 10,
    ensures
        0 <= fee_of(budget, fee_pct) <= budget / 10,
{
    let b = budget as int;
    let p = fee_pct as int;
    assert(0 <= (b * p) / 100 <= b / 10) by (nonlinear_arith)
        requires
            b >= 0,
            0 <= p <= 10,
    {
        assert(b * p <= b * 10);
        assert(b * p >= 0);
    }
    if b * p == 0 {
    }
}

/// An advertiser's statistics count every campaign it funds: after a new
/// campaign, its total and active campaigns are one more than before (1 for
/// an advertiser without statistics), its spending grows by the budget, and
/// the new campaign is its last.
pub proof fn lemma_stats_count_every_campaign(
    s: CampaignOrchestratorState,
    advertiser: u64,
    campaign_id: u64,
    budget: i128,
    sequence: u32,
)
    requires
        !s.stats_overflow(advertiser, budget),
    ensures
        ({
            let t = s.stats_after(advertiser, campaign_id, budget, sequence);
            let had = s.advertiser_stats.contains_key(advertiser);
            let before = s.advertiser_stats[advertiser];
            &&& t.total_campaigns == (if had { before.total_campaigns + 1 } else { 1 })
            &&& t.active_campaigns == (if had { before.active_campaigns + 1 } else { 1 })
            &&& t.total_spent == (if had { before.total_spent + budget } else { budget as int })
            &&& t.last_campaign_id == campaign_id
            &&& had ==> t.total_views == before.total_views && t.reputation_score == before.reputation_score
                && t.join_ledger == before.join_ledger
            &&& !had ==> t.total_views == 0 && t.reputation_score == 100 && t.join_ledger == sequence
        }),
{
}

/// The platform fee is `fee_pct` percent of the budget, rounded down: the
/// largest amount whose hundredfold is at most the budget times the rate.
pub proof fn lemma_fee_is_percentage(budget: i128, fee_pct: u32)
    requires
        budget >= 0,
    ensures
        fee_of(budget, fee_pct) * 100 <= budget * fee_pct < (fee_of(budget, fee_pct) + 1) * 100,
{
    assert(budget * fee_pct >= 0) by (nonlinear_arith)
        requires
            budget >= 0,
    ;
    crate::common::lemma_div_trunc_rounds_to_zero(budget * fee_pct, 100);
}

} // verus!
