//! Platform subscription plans and billing.
//!
//! - `subscribe` creates a new subscription and is refused while one is active.
//! - `change_tier` upgrades to a higher tier, charging the new price less a
//!   prorated credit for the time left on the current plan; downgrades and
//!   same-tier changes are refused.
//! - `renew` extends the current tier by one period, stacked on the time left.
//! - `cancel` turns off auto-renewal; the subscription stays active until it expires.
use vstd::prelude::*;
use std::collections::BTreeMap;
use crate::common::{Auth, Error, Ledger, Party, Transfer, div_trunc};

verus! {

/// Subscription tiers, from the lowest to the highest; `tier_rank` orders them.
#[derive(Clone, Copy, PartialEq, Eq, Structural, Debug)]
pub enum SubscriptionTier {
    Starter,
    Growth,
    Business,
    Enterprise,
}

/// What a tier offers and costs.
#[derive(Clone, Debug)]
pub struct SubscriptionPlan {
    pub tier: SubscriptionTier,
    pub name: String,
    pub price_monthly: i128,
    pub price_annual: i128,
    pub max_campaigns: u32,
    pub max_impressions_per_month: u64,
    pub max_publishers: u32,
    pub analytics_enabled: bool,
    pub api_access: bool,
}

/// A subscriber's current subscription.
#[derive(Clone, Copy, PartialEq, Eq, Structural, Debug)]
pub struct Subscription {
    pub subscriber: u64,
    pub tier: SubscriptionTier,
    pub is_annual: bool,
    /// Amount of the last payment; the base of the prorated credit.
    pub amount_paid: i128,
    /// Start of the current billing period (kept by `renew`).
    pub started_at: u64,
    pub expires_at: u64,
    pub auto_renew: bool,
    /// Kept across upgrades and renewals.
    pub campaigns_used: u32,
    /// Kept across upgrades and renewals.
    pub impressions_used: u64,
}

/// Subscriber already has an active subscription. Use `change_tier()` or `renew()`.
pub const ERR_ALREADY_ACTIVE: u32 = 1;
/// No active subscription found for this address.
pub const ERR_NO_ACTIVE_SUB: u32 = 2;
/// Cannot downgrade while a subscription is active.
pub const ERR_DOWNGRADE_BLOCKED: u32 = 3;
/// New tier is the same as the current tier. Use `renew()` instead.
pub const ERR_SAME_TIER: u32 = 4;

/// The rank of a tier: higher rank, higher tier.
pub open spec fn rank_of(tier: SubscriptionTier) -> u32 {
    match tier {
        SubscriptionTier::Starter => 0,
        SubscriptionTier::Growth => 1,
        SubscriptionTier::Business => 2,
        SubscriptionTier::Enterprise => 3,
    }
}

/// Length of a billing period in seconds: 365 days for an annual plan, 30
/// days for a monthly one.
pub open spec fn period_of(is_annual: bool) -> u64 {
    if is_annual {
        31_536_000
    } else {
        2_592_000
    }
}

/// The credit owed for the unused part of a subscription:
/// `amount_paid * remaining / (expires_at - started_at)`, rounded toward zero,
/// and 0 once the subscription has expired or when its period is empty.
pub open spec fn credit_of(amount_paid: i128, started_at: u64, expires_at: u64, now: u64) -> int {
    if now >= expires_at {
        0
    } else if expires_at - started_at == 0 {
        0
    } else {
        div_trunc(amount_paid * (expires_at - now), expires_at - started_at)
    }
}

/// Returns a numeric rank for tier comparison; higher rank, higher tier.
pub fn tier_rank(tier: &SubscriptionTier) -> (r: u32)
    ensures
        r == rank_of(*tier),
{
    match tier {
        SubscriptionTier::Starter => 0,
        SubscriptionTier::Growth => 1,
        SubscriptionTier::Business => 2,
        SubscriptionTier::Enterprise => 3,
    }
}

/// Returns the billing period in seconds.
pub fn plan_period_secs(is_annual: bool) -> (r: u64)
    ensures
        r == period_of(is_annual),
{
    if is_annual {
        365 * 24 * 3600u64
    } else {
        30 * 24 * 3600u64
    }
}

/// Computes the prorated credit for an existing subscription:
/// `(amount_paid * remaining_secs) / total_period_secs`, truncated, and 0
/// if `now >= expires_at` or the period is empty.
pub fn prorated_credit(amount_paid: i128, started_at: u64, expires_at: u64, now: u64) -> (r: i128)
    requires
        now < expires_at ==> started_at <= expires_at,
        now < expires_at ==> i128::MIN <= amount_paid * (expires_at - now) <= i128::MAX,
    ensures
        r == credit_of(amount_paid, started_at, expires_at, now),
{
    if now >= expires_at {
        return 0;
    }
    let remaining_secs = (expires_at - now) as i128;
    let total_period_secs = (expires_at - started_at) as i128;
    if total_period_secs == 0 {
        return 0;
    }
    let product = amount_paid * remaining_secs;
    match product.checked_div(total_period_secs) {
        Some(q) => q,
        None => {
            proof {
                assert(div_trunc(product as int, total_period_secs as int) <= i128::MAX) by (nonlinear_arith)
                    requires
                        total_period_secs > 0,
                        i128::MIN <= product <= i128::MAX,
                ;
            }
            0
        },
    }
}

/// The price of a plan for the chosen billing period.
pub open spec fn price_of(plan: SubscriptionPlan, is_annual: bool) -> i128 {
    if is_annual {
        plan.price_annual
    } else {
        plan.price_monthly
    }
}

fn plan_price(plan: &SubscriptionPlan, is_annual: bool) -> (r: i128)
    ensures
        r == price_of(*plan, is_annual),
{
    if is_annual {
        plan.price_annual
    } else {
        plan.price_monthly
    }
}

/// The highest price any plan has.
pub open spec fn max_plan_price() -> int {
    19_990_000_000
}

/// The contract's storage, as values.
pub struct SubscriptionManagerState {
    pub admin: Option<u64>,
    pub token: Option<u64>,
    pub treasury: Option<u64>,
    /// Plans by the rank of their tier.
    pub plans: Map<u32, SubscriptionPlan>,
    /// Subscriptions by subscriber.
    pub subscriptions: Map<u64, Subscription>,
}

impl SubscriptionManagerState {
    /// What every reachable state satisfies: plan prices lie between 0 and
    /// the highest price, and every subscription is filed under its
    /// subscriber, started no later than it expires, and paid a plan price.
    pub open spec fn wf(self) -> bool {
        &&& forall|t: u32| #[trigger] self.plans.contains_key(t) ==> {
            &&& self.plans[t].tier == self.plans[t].tier
            &&& 0 <= self.plans[t].price_monthly <= max_plan_price()
            &&& 0 <= self.plans[t].price_annual <= max_plan_price()
        }
        &&& forall|s: u64| #[trigger] self.subscriptions.contains_key(s) ==> {
            &&& self.subscriptions[s].subscriber == s
            &&& self.subscriptions[s].started_at <= self.subscriptions[s].expires_at
            &&& 0 <= self.subscriptions[s].amount_paid <= max_plan_price()
        }
    }

    /// Whether `subscriber` has a subscription that expires after `now`.
    pub open spec fn is_active_at(self, subscriber: u64, now: u64) -> bool {
        self.subscriptions.contains_key(subscriber) && self.subscriptions[subscriber].expires_at > now
    }

    /// The movement of `amount` from `from` to the treasury; none when the
    /// amount is not positive.
    pub open spec fn charge_of(self, from: u64, amount: i128) -> Seq<Transfer> {
        if amount > 0 {
            seq![Transfer {
                token: self.token.unwrap(),
                from: Party::Account(from),
                to: Party::Account(self.treasury.unwrap()),
                amount,
            }]
        } else {
            Seq::empty()
        }
    }

    /// Whether charging `amount` fails for want of a token or treasury.
    pub open spec fn charge_fails(self, amount: i128) -> bool {
        amount > 0 && (self.token is None || self.treasury is None)
    }

    pub open spec fn initialize_error(self, auth: Auth, admin: u64) -> Option<Error> {
        if self.admin is Some {
            Some(Error::AlreadyInitialized)
        } else if !auth.authorizes(admin) {
            Some(Error::AuthRequired)
        } else {
            None
        }
    }

    pub open spec fn subscribe_error(
        self,
        auth: Auth,
        now: u64,
        subscriber: u64,
        tier: SubscriptionTier,
        is_annual: bool,
    ) -> Option<Error> {
        if !auth.authorizes(subscriber) {
            Some(Error::AuthRequired)
        } else if self.is_active_at(subscriber, now) {
            Some(Error::AlreadyActive)
        } else if !self.plans.contains_key(rank_of(tier)) {
            Some(Error::PlanNotFound)
        } else if self.charge_fails(price_of(self.plans[rank_of(tier)], is_annual)) {
            Some(Error::NotInitialized)
        } else if now + period_of(is_annual) > u64::MAX {
            Some(Error::Overflow)
        } else {
            None
        }
    }

    /// The credit that the current subscription of `subscriber` is owed at `now`.
    pub open spec fn credit_at(self, subscriber: u64, now: u64) -> int {
        let s = self.subscriptions[subscriber];
        credit_of(s.amount_paid, s.started_at, s.expires_at, now)
    }

    /// What an upgrade to `new_tier` charges: the new price less the credit, and never less than 0.
    pub open spec fn upgrade_charge(self, subscriber: u64, new_tier: SubscriptionTier, is_annual: bool, now: u64) -> int {
        let net = price_of(self.plans[rank_of(new_tier)], is_annual) - self.credit_at(subscriber, now);
        if net > 0 {
            net
        } else {
            0
        }
    }

    pub open spec fn change_tier_error(
        self,
        auth: Auth,
        now: u64,
        subscriber: u64,
        new_tier: SubscriptionTier,
        is_annual: bool,
    ) -> Option<Error> {
        if !auth.authorizes(subscriber) {
            Some(Error::AuthRequired)
        } else if !self.is_active_at(subscriber, now) {
            Some(Error::NoActiveSubscription)
        } else if rank_of(new_tier) < rank_of(self.subscriptions[subscriber].tier) {
            Some(Error::DowngradeNotAllowed)
        } else if rank_of(new_tier) == rank_of(self.subscriptions[subscriber].tier) {
            Some(Error::SameTier)
        } else if !self.plans.contains_key(rank_of(new_tier)) {
            Some(Error::PlanNotFound)
        } else if self.charge_fails(self.upgrade_charge(subscriber, new_tier, is_annual, now) as i128) {
            Some(Error::NotInitialized)
        } else if now + period_of(is_annual) > u64::MAX {
            Some(Error::Overflow)
        } else {
            None
        }
    }

    pub open spec fn renew_error(self, auth: Auth, now: u64, subscriber: u64, is_annual: bool) -> Option<Error> {
        if !auth.authorizes(subscriber) {
            Some(Error::AuthRequired)
        } else if !self.subscriptions.contains_key(subscriber) {
            Some(Error::NoSubscriptionFound)
        } else if !self.plans.contains_key(rank_of(self.subscriptions[subscriber].tier)) {
            Some(Error::PlanNotFound)
        } else if self.charge_fails(
            price_of(self.plans[rank_of(self.subscriptions[subscriber].tier)], is_annual),
        ) {
            Some(Error::NotInitialized)
        } else if renewed_expiry(self.subscriptions[subscriber].expires_at, now, is_annual) > u64::MAX {
            Some(Error::Overflow)
        } else {
            None
        }
    }
}

/// The expiry after a renewal: one period added to the later of the current
/// expiry and `now`.
pub open spec fn renewed_expiry(expires_at: u64, now: u64, is_annual: bool) -> int {
    (if expires_at > now {
        expires_at
    } else {
        now
    }) + period_of(is_annual)
}

/// The subscription-manager contract.
pub struct SubscriptionManagerContract {
    admin: Option<u64>,
    token: Option<u64>,
    treasury: Option<u64>,
    plans: BTreeMap<u32, SubscriptionPlan>,
    subscriptions: BTreeMap<u64, Subscription>,
}

impl View for SubscriptionManagerContract {
    type V = SubscriptionManagerState;

    closed spec fn view(&self) -> SubscriptionManagerState {
        SubscriptionManagerState {
            admin: self.admin,
            token: self.token,
            treasury: self.treasury,
            plans: self.plans@,
            subscriptions: self.subscriptions@,
        }
    }
}

fn make_plan(
    tier: SubscriptionTier,
    name: &str,
    monthly: i128,
    annual: i128,
    max_campaigns: u32,
    max_impressions: u64,
    max_publishers: u32,
    analytics: bool,
    api: bool,
) -> (p: SubscriptionPlan)
    ensures
        p.tier == tier,
        p.name@ == name@,
        p.price_monthly == monthly,
        p.price_annual == annual,
        p.max_campaigns == max_campaigns,
        p.max_impressions_per_month == max_impressions,
        p.max_publishers == max_publishers,
        p.analytics_enabled == analytics,
        p.api_access == api,
{
    SubscriptionPlan {
        tier,
        name: name.to_owned(),
        price_monthly: monthly,
        price_annual: annual,
        max_campaigns,
        max_impressions_per_month: max_impressions,
        max_publishers,
        analytics_enabled: analytics,
        api_access: api,
    }
}

impl SubscriptionManagerContract {
    /// A contract with empty storage.
    pub fn new() -> (c: Self)
        ensures
            c@.admin is None,
            c@.token is None,
            c@.treasury is None,
            c@.plans == Map::<u32, SubscriptionPlan>::empty(),
            c@.subscriptions == Map::<u64, Subscription>::empty(),
            c@.wf(),
    {
        SubscriptionManagerContract {
            admin: None,
            token: None,
            treasury: None,
            plans: BTreeMap::new(),
            subscriptions: BTreeMap::new(),
        }
    }

    /// Stores the administrator, token and treasury, and the four plans.
    pub fn initialize(&mut self, auth: &Auth, admin: u64, token: u64, treasury: u64) -> (r: Result<(), Error>)
        requires
            old(self)@.wf(),
        ensures
            final(self)@.wf(),
            r == crate::common::outcome(old(self)@.initialize_error(*auth, admin), ()),
            r is Err ==> final(self)@ == old(self)@,
            r is Ok ==> {
                &&& final(self)@.admin == Some(admin)
                &&& final(self)@.token == Some(token)
                &&& final(self)@.treasury == Some(treasury)
                &&& final(self)@.subscriptions == old(self)@.subscriptions
                &&& final(self)@.plans.dom() == old(self)@.plans.dom().union(set![0u32, 1u32, 2u32, 3u32])
                &&& final(self)@.plans[0].tier == SubscriptionTier::Starter
                &&& final(self)@.plans[0].price_monthly == 99_000_000
                &&& final(self)@.plans[0].price_annual == 990_000_000
                &&& final(self)@.plans[0].max_campaigns == 5
                &&& final(self)@.plans[0].max_impressions_per_month == 100_000
                &&& final(self)@.plans[0].max_publishers == 10
                &&& !final(self)@.plans[0].analytics_enabled
                &&& !final(self)@.plans[0].api_access
                &&& final(self)@.plans[1].tier == SubscriptionTier::Growth
                &&& final(self)@.plans[1].price_monthly == 299_000_000
                &&& final(self)@.plans[1].price_annual == 2_990_000_000
                &&& final(self)@.plans[1].max_campaigns == 25
                &&& final(self)@.plans[1].max_impressions_per_month == 500_000
                &&& final(self)@.plans[1].max_publishers == 50
                &&& final(self)@.plans[1].analytics_enabled
                &&& !final(self)@.plans[1].api_access
                &&& final(self)@.plans[2].tier == SubscriptionTier::Business
                &&& final(self)@.plans[2].price_monthly == 799_000_000
                &&& final(self)@.plans[2].price_annual == 7_990_000_000
                &&& final(self)@.plans[2].max_campaigns == 100
                &&& final(self)@.plans[2].max_impressions_per_month == 2_000_000
                &&& final(self)@.plans[2].max_publishers == 200
                &&& final(self)@.plans[2].analytics_enabled
                &&& final(self)@.plans[2].api_access
                &&& final(self)@.plans[3].tier == SubscriptionTier::Enterprise
                &&& final(self)@.plans[3].price_monthly == 1_999_000_000
                &&& final(self)@.plans[3].price_annual == 19_990_000_000
                &&& final(self)@.plans[3].max_campaigns == 1000
                &&& final(self)@.plans[3].max_impressions_per_month == 10_000_000
                &&& final(self)@.plans[3].max_publishers == 1000
                &&& final(self)@.plans[3].analytics_enabled
                &&& final(self)@.plans[3].api_access
            },
    {
        if self.admin.is_some() {
            return Err(Error::AlreadyInitialized);
        }
        if !auth.check(admin) {
            return Err(Error::AuthRequired);
        }
        self.admin = Some(admin);
        self.token = Some(token);
        self.treasury = Some(treasury);
        let p0 = make_plan(SubscriptionTier::Starter, "Starter", 99_000_000, 990_000_000, 5, 100_000, 10, false, false);
        let p1 = make_plan(SubscriptionTier::Growth, "Growth", 299_000_000, 2_990_000_000, 25, 500_000, 50, true, false);
        let p2 = make_plan(SubscriptionTier::Business, "Business", 799_000_000, 7_990_000_000, 100, 2_000_000, 200, true, true);
        let p3 = make_plan(
            SubscriptionTier::Enterprise,
            "Enterprise",
            1_999_000_000,
            19_990_000_000,
            1000,
            10_000_000,
            1000,
            true,
            true,
        );
        self.plans.insert(0, p0);
        self.plans.insert(1, p1);
        self.plans.insert(2, p2);
        self.plans.insert(3, p3);
        Ok(())
    }

    fn charge(&self, from: u64, amount: i128) -> (r: Result<Vec<Transfer>, Error>)
        ensures
            match r {
                Ok(t) => !self@.charge_fails(amount) && t@ == self@.charge_of(from, amount),
                Err(e) => self@.charge_fails(amount) && e == Error::NotInitialized,
            },
    {
        let mut transfers: Vec<Transfer> = Vec::new();
        if amount > 0 {
            match (self.token, self.treasury) {
                (Some(token), Some(treasury)) => {
                    transfers.push(
                        Transfer { token, from: Party::Account(from), to: Party::Account(treasury), amount },
                    );
                },
                _ => {
                    return Err(Error::NotInitialized);
                },
            }
        }
        proof {
            assert(transfers@ =~= self@.charge_of(from, amount));
        }
        Ok(transfers)
    }

    /// Creates a new subscription to `tier`, charging the plan's price to the
    /// subscriber; refused while the subscriber has an active subscription.
    pub fn subscribe(
        &mut self,
        auth: &Auth,
        ledger: &Ledger,
        subscriber: u64,
        tier: SubscriptionTier,
        is_annual: bool,
        auto_renew: bool,
    ) -> (r: Result<Vec<Transfer>, Error>)
        requires
            old(self)@.wf(),
        ensures
            final(self)@.wf(),
            match old(self)@.subscribe_error(*auth, ledger.timestamp, subscriber, tier, is_annual) {
                Some(e) => r == Err::<Vec<Transfer>, Error>(e) && final(self)@ == old(self)@,
                None => {
                    let amount = price_of(old(self)@.plans[rank_of(tier)], is_annual);
                    &&& r matches Ok(t) && t@ == old(self)@.charge_of(subscriber, amount)
                    &&& final(self)@ == SubscriptionManagerState {
                        subscriptions: old(self)@.subscriptions.insert(
                            subscriber,
                            Subscription {
                                subscriber,
                                tier,
                                is_annual,
                                amount_paid: amount,
                                started_at: ledger.timestamp,
                                expires_at: (ledger.timestamp + period_of(is_annual)) as u64,
                                auto_renew,
                                campaigns_used: 0,
                                impressions_used: 0,
                            },
                        ),
                        ..old(self)@
                    }
                },
            },
    {
        if !auth.check(subscriber) {
            return Err(Error::AuthRequired);
        }
        let now = ledger.timestamp;
        match self.subscriptions.get(&subscriber) {
            Some(existing) => {
                if existing.expires_at > now {
                    return Err(Error::AlreadyActive);
                }
            },
            None => {},
        }
        let amount = match self.plans.get(&tier_rank(&tier)) {
            Some(plan) => plan_price(plan, is_annual),
            None => {
                return Err(Error::PlanNotFound);
            },
        };
        let period = plan_period_secs(is_annual);
        let transfers = match self.charge(subscriber, amount) {
            Ok(t) => t,
            Err(e) => {
                return Err(e);
            },
        };
        let expires_at = match now.checked_add(period) {
            Some(x) => x,
            None => {
                return Err(Error::Overflow);
            },
        };
        let sub = Subscription {
            subscriber,
            tier,
            is_annual,
            amount_paid: amount,
            started_at: now,
            expires_at,
            auto_renew,
            campaigns_used: 0,
            impressions_used: 0,
        };
        self.subscriptions.insert(subscriber, sub);
        Ok(transfers)
    }

    /// Upgrades an active subscription to a higher tier. The charge is the
    /// new price less the prorated credit, and never negative; the billing
    /// period restarts now and the usage counters are kept.
    pub fn change_tier(
        &mut self,
        auth: &Auth,
        ledger: &Ledger,
        subscriber: u64,
        new_tier: SubscriptionTier,
        is_annual: bool,
        auto_renew: bool,
    ) -> (r: Result<Vec<Transfer>, Error>)
        requires
            old(self)@.wf(),
        ensures
            final(self)@.wf(),
            match old(self)@.change_tier_error(*auth, ledger.timestamp, subscriber, new_tier, is_annual) {
                Some(e) => r == Err::<Vec<Transfer>, Error>(e) && final(self)@ == old(self)@,
                None => {
                    let existing = old(self)@.subscriptions[subscriber];
                    let charge = old(self)@.upgrade_charge(subscriber, new_tier, is_annual, ledger.timestamp);
                    &&& r matches Ok(t) && t@ == old(self)@.charge_of(subscriber, charge as i128)
                    &&& final(self)@ == SubscriptionManagerState {
                        subscriptions: old(self)@.subscriptions.insert(
                            subscriber,
                            Subscription {
                                subscriber,
                                tier: new_tier,
                                is_annual,
                                amount_paid: price_of(old(self)@.plans[rank_of(new_tier)], is_annual),
                                started_at: ledger.timestamp,
                                expires_at: (ledger.timestamp + period_of(is_annual)) as u64,
                                auto_renew,
                                campaigns_used: existing.campaigns_used,
                                impressions_used: existing.impressions_used,
                            },
                        ),
                        ..old(self)@
                    }
                },
            },
    {
        if !auth.check(subscriber) {
            return Err(Error::AuthRequired);
        }
        let now = ledger.timestamp;
        let existing = match self.subscriptions.get(&subscriber) {
            Some(s) => {
                if s.expires_at > now {
                    *s
                } else {
                    return Err(Error::NoActiveSubscription);
                }
            },
            None => {
                return Err(Error::NoActiveSubscription);
            },
        };
        let current_rank = tier_rank(&existing.tier);
        let new_rank = tier_rank(&new_tier);
        if new_rank < current_rank {
            return Err(Error::DowngradeNotAllowed);
        }
        if new_rank == current_rank {
            return Err(Error::SameTier);
        }
        proof {
            assert(existing.amount_paid * (existing.expires_at - now) <= max_plan_price() * u64::MAX)
                by (nonlinear_arith)
                requires
                    0 <= existing.amount_paid <= max_plan_price(),
                    0 <= existing.expires_at - now <= u64::MAX,
            ;
            assert(existing.amount_paid * (existing.expires_at - now) >= 0) by (nonlinear_arith)
                requires
                    0 <= existing.amount_paid,
                    0 <= existing.expires_at - now,
            ;
        }
        let credit = prorated_credit(existing.amount_paid, existing.started_at, existing.expires_at, now);
        proof {
            lemma_credit_bounds(existing.amount_paid, existing.started_at, existing.expires_at, now);
            assert(existing.amount_paid * (existing.expires_at - now) <= max_plan_price() * u64::MAX);
        }
        let new_price = match self.plans.get(&new_rank) {
            Some(plan) => plan_price(plan, is_annual),
            None => {
                return Err(Error::PlanNotFound);
            },
        };
        let diff = new_price - credit;
        let net_charge = if diff > 0 {
            diff
        } else {
            0
        };
        let transfers = match self.charge(subscriber, net_charge) {
            Ok(t) => t,
            Err(e) => {
                return Err(e);
            },
        };
        let period = plan_period_secs(is_annual);
        let expires_at = match now.checked_add(period) {
            Some(x) => x,
            None => {
                return Err(Error::Overflow);
            },
        };
        let sub = Subscription {
            subscriber,
            tier: new_tier,
            is_annual,
            amount_paid: new_price,
            started_at: now,
            expires_at,
            auto_renew,
            campaigns_used: existing.campaigns_used,
            impressions_used: existing.impressions_used,
        };
        self.subscriptions.insert(subscriber, sub);
        Ok(transfers)
    }

    /// Renews the current tier by one period, stacked on the time left; the
    /// start of the subscription and its usage counters are kept.
    pub fn renew(
        &mut self,
        auth: &Auth,
        ledger: &Ledger,
        subscriber: u64,
        is_annual: bool,
        auto_renew: bool,
    ) -> (r: Result<Vec<Transfer>, Error>)
        requires
            old(self)@.wf(),
        ensures
            final(self)@.wf(),
            match old(self)@.renew_error(*auth, ledger.timestamp, subscriber, is_annual) {
                Some(e) => r == Err::<Vec<Transfer>, Error>(e) && final(self)@ == old(self)@,
                None => {
                    let existing = old(self)@.subscriptions[subscriber];
                    let amount = price_of(old(self)@.plans[rank_of(existing.tier)], is_annual);
                    &&& r matches Ok(t) && t@ == old(self)@.charge_of(subscriber, amount)
                    &&& final(self)@ == SubscriptionManagerState {
                        subscriptions: old(self)@.subscriptions.insert(
                            subscriber,
                            Subscription {
                                is_annual,
                                amount_paid: amount,
                                expires_at: renewed_expiry(existing.expires_at, ledger.timestamp, is_annual) as u64,
                                auto_renew,
                                ..existing
                            },
                        ),
                        ..old(self)@
                    }
                },
            },
    {
        if !auth.check(subscriber) {
            return Err(Error::AuthRequired);
        }
        let now = ledger.timestamp;
        let mut existing = match self.subscriptions.get(&subscriber) {
            Some(s) => *s,
            None => {
                return Err(Error::NoSubscriptionFound);
            },
        };
        let amount = match self.plans.get(&tier_rank(&existing.tier)) {
            Some(plan) => plan_price(plan, is_annual),
            None => {
                return Err(Error::PlanNotFound);
            },
        };
        let period = plan_period_secs(is_annual);
        let transfers = match self.charge(subscriber, amount) {
            Ok(t) => t,
            Err(e) => {
                return Err(e);
            },
        };
        let base = if existing.expires_at > now {
            existing.expires_at
        } else {
            now
        };
        let expires_at = match base.checked_add(period) {
            Some(x) => x,
            None => {
                return Err(Error::Overflow);
            },
        };
        existing.expires_at = expires_at;
        existing.is_annual = is_annual;
        existing.auto_renew = auto_renew;
        existing.amount_paid = amount;
        self.subscriptions.insert(subscriber, existing);
        Ok(transfers)
    }

    /// Turns off auto-renewal; the subscription stays active until it expires.
    pub fn cancel(&mut self, auth: &Auth, subscriber: u64) -> (r: Result<(), Error>)
        requires
            old(self)@.wf(),
        ensures
            final(self)@.wf(),
            r == crate::common::outcome(
                if !auth.authorizes(subscriber) {
                    Some(Error::AuthRequired)
                } else if !old(self)@.subscriptions.contains_key(subscriber) {
                    Some(Error::SubscriptionNotFound)
                } else {
                    None
                },
                (),
            ),
            r is Err ==> final(self)@ == old(self)@,
            r is Ok ==> final(self)@ == (SubscriptionManagerState {
                subscriptions: old(self)@.subscriptions.insert(
                    subscriber,
                    Subscription { auto_renew: false, ..old(self)@.subscriptions[subscriber] },
                ),
                ..old(self)@
            }),
    {
        if !auth.check(subscriber) {
            return Err(Error::AuthRequired);
        }
        let mut sub = match self.subscriptions.get(&subscriber) {
            Some(s) => *s,
            None => {
                return Err(Error::SubscriptionNotFound);
            },
        };
        sub.auto_renew = false;
        self.subscriptions.insert(subscriber, sub);
        Ok(())
    }

    /// Counts one more campaign against the subscriber's usage.
    pub fn record_campaign_used(&mut self, subscriber: u64) -> (r: Result<(), Error>)
        requires
            old(self)@.wf(),
        ensures
            final(self)@.wf(),
            r == crate::common::outcome(
                if !old(self)@.subscriptions.contains_key(subscriber) {
                    Some(Error::SubscriptionNotFound)
                } else if old(self)@.subscriptions[subscriber].campaigns_used == u32::MAX {
                    Some(Error::Overflow)
                } else {
                    None
                },
                (),
            ),
            r is Err ==> final(self)@ == old(self)@,
            r is Ok ==> final(self)@ == (SubscriptionManagerState {
                subscriptions: old(self)@.subscriptions.insert(
                    subscriber,
                    Subscription {
                        campaigns_used: (old(self)@.subscriptions[subscriber].campaigns_used + 1) as u32,
                        ..old(self)@.subscriptions[subscriber]
                    },
                ),
                ..old(self)@
            }),
    {
        let mut sub = match self.subscriptions.get(&subscriber) {
            Some(s) => *s,
            None => {
                return Err(Error::SubscriptionNotFound);
            },
        };
        if sub.campaigns_used == u32::MAX {
            return Err(Error::Overflow);
        }
        sub.campaigns_used = sub.campaigns_used + 1;
        self.subscriptions.insert(subscriber, sub);
        Ok(())
    }

    /// Counts `count` more impressions against the subscriber's usage.
    pub fn record_impression(&mut self, subscriber: u64, count: u64) -> (r: Result<(), Error>)
        requires
            old(self)@.wf(),
        ensures
            final(self)@.wf(),
            r == crate::common::outcome(
                if !old(self)@.subscriptions.contains_key(subscriber) {
                    Some(Error::SubscriptionNotFound)
                } else if old(self)@.subscriptions[subscriber].impressions_used + count > u64::MAX {
                    Some(Error::Overflow)
                } else {
                    None
                },
                (),
            ),
            r is Err ==> final(self)@ == old(self)@,
            r is Ok ==> final(self)@ == (SubscriptionManagerState {
                subscriptions: old(self)@.subscriptions.insert(
                    subscriber,
                    Subscription {
                        impressions_used: (old(self)@.subscriptions[subscriber].impressions_used + count) as u64,
                        ..old(self)@.subscriptions[subscriber]
                    },
                ),
                ..old(self)@
            }),
    {
        let mut sub = match self.subscriptions.get(&subscriber) {
            Some(s) => *s,
            None => {
                return Err(Error::SubscriptionNotFound);
            },
        };
        match sub.impressions_used.checked_add(count) {
            Some(x) => {
                sub.impressions_used = x;
            },
            None => {
                return Err(Error::Overflow);
            },
        }
        self.subscriptions.insert(subscriber, sub);
        Ok(())
    }

    /// Whether the subscriber has a subscription that has not expired.
    pub fn is_active(&self, ledger: &Ledger, subscriber: u64) -> (r: bool)
        ensures
            r == self@.is_active_at(subscriber, ledger.timestamp),
    {
        match self.subscriptions.get(&subscriber) {
            Some(s) => s.expires_at > ledger.timestamp,
            None => false,
        }
    }

    /// The subscriber's subscription, if any.
    pub fn get_subscription(&self, subscriber: u64) -> (r: Option<Subscription>)
        ensures
            r == (if self@.subscriptions.contains_key(subscriber) {
                Some(self@.subscriptions[subscriber])
            } else {
                None::<Subscription>
            }),
    {
        match self.subscriptions.get(&subscriber) {
            Some(s) => Some(*s),
            None => None,
        }
    }

    /// The plan of a tier, if the contract holds one.
    pub fn get_plan(&self, tier: SubscriptionTier) -> (r: Option<&SubscriptionPlan>)
        ensures
            match r {
                Some(p) => self@.plans.contains_key(rank_of(tier)) && *p == self@.plans[rank_of(tier)],
                None => !self@.plans.contains_key(rank_of(tier)),
            },
    {
        self.plans.get(&tier_rank(&tier))
    }
}

/// The prorated credit of a subscription with a non-negative payment is
/// never negative and never more than the payment times the seconds left.
pub proof fn lemma_credit_bounds(amount_paid: i128, started_at: u64, expires_at: u64, now: u64)
    requires
        amount_paid >= 0,
        started_at <= expires_at,
    ensures
        0 <= credit_of(amount_paid, started_at, expires_at, now),
        now < expires_at ==> credit_of(amount_paid, started_at, expires_at, now) <= amount_paid * (
        expires_at - now),
{
    if now < expires_at && expires_at - started_at != 0 {
        let rem: int = expires_at - now;
        let tot: int = expires_at - started_at;
        assert(0 <= (amount_paid * rem) / tot <= amount_paid * rem) by (nonlinear_arith)
            requires
                amount_paid >= 0,
                0 < rem,
                0 < tot,
        ;
    }
}

/// Once its period has begun, a subscription's prorated credit is never more
/// than what was paid for it, and it is all of it at the start.
pub proof fn lemma_credit_at_most_paid(amount_paid: i128, started_at: u64, expires_at: u64, now: u64)
    requires
        amount_paid >= 0,
        started_at <= now,
        started_at < expires_at,
    ensures
        0 <= credit_of(amount_paid, started_at, expires_at, now) <= amount_paid,
        now == started_at ==> credit_of(amount_paid, started_at, expires_at, now) == amount_paid,
{
    if now < expires_at {
        let rem: int = expires_at - now;
        let tot: int = expires_at - started_at;
        assert(0 <= (amount_paid * rem) / tot <= amount_paid) by (nonlinear_arith)
            requires
                amount_paid >= 0,
                0 < rem <= tot,
        {
            assert(amount_paid * rem <= amount_paid * tot);
        }
        if now == started_at {
            assert((amount_paid * tot) / tot == amount_paid) by (nonlinear_arith)
                requires
                    tot > 0,
            ;
        }
    }
}

/// A renewal never shortens a subscription: the new expiry is one full
/// period past both the old expiry and `now`.
pub proof fn lemma_renew_extends(expires_at: u64, now: u64, is_annual: bool)
    ensures
        renewed_expiry(expires_at, now, is_annual) >= expires_at + period_of(is_annual),
        renewed_expiry(expires_at, now, is_annual) >= now + period_of(is_annual),
{
}

/// Tiers and ranks correspond one to one, so comparing ranks compares tiers.
pub proof fn lemma_rank_injective(a: SubscriptionTier, b: SubscriptionTier)
    ensures
        (rank_of(a) == rank_of(b)) == (a == b),
{
}

/// An upgrade never charges more than the new plan's price, nor less than 0.
pub proof fn lemma_upgrade_charge_bounds(
    s: SubscriptionManagerState,
    subscriber: u64,
    new_tier: SubscriptionTier,
    is_annual: bool,
    now: u64,
)
    requires
        s.wf(),
        s.subscriptions.contains_key(subscriber),
        s.plans.contains_key(rank_of(new_tier)),
    ensures
        0 <= s.upgrade_charge(subscriber, new_tier, is_annual, now) <= price_of(
            s.plans[rank_of(new_tier)],
            is_annual,
        ),
{
    let sub = s.subscriptions[subscriber];
    lemma_credit_bounds(sub.amount_paid, sub.started_at, sub.expires_at, now);
}

/// The prorated credit rounds the exact proportion of the payment down, by
/// less than one unit: `credit <= amount_paid * remaining / period < credit + 1`.
pub proof fn lemma_credit_rounding(amount_paid: i128, started_at: u64, expires_at: u64, now: u64)
    requires
        amount_paid >= 0,
        now < expires_at,
        started_at < expires_at,
    ensures
        credit_of(amount_paid, started_at, expires_at, now) * (expires_at - started_at) <= amount_paid * (expires_at
            - now),
        amount_paid * (expires_at - now) < (credit_of(amount_paid, started_at, expires_at, now) + 1) * (expires_at
            - started_at),
{
    let rem: int = expires_at - now;
    let tot: int = expires_at - started_at;
    let x: int = amount_paid * rem;
    assert(x >= 0) by (nonlinear_arith)
        requires
            amount_paid >= 0,
            rem > 0,
            x == amount_paid * rem,
    ;
    assert((x / tot) * tot <= x < (x / tot + 1) * tot) by (nonlinear_arith)
        requires
            x >= 0,
            tot > 0,
    ;
    if x == 0 {
        assert(x / tot == 0);
    }
}

/// Cancelling leaves a subscription active exactly as long as before: only
/// its auto-renewal is turned off.
pub proof fn lemma_cancel_keeps_access(s: SubscriptionManagerState, subscriber: u64, other: u64, now: u64)
    requires
        s.subscriptions.contains_key(subscriber),
    ensures
        (SubscriptionManagerState {
            subscriptions: s.subscriptions.insert(
                subscriber,
                Subscription { auto_renew: false, ..s.subscriptions[subscriber] },
            ),
            ..s
        }).is_active_at(other, now) == s.is_active_at(other, now),
{
}

/// A plan charges its annual price for an annual subscription and its
/// monthly price otherwise.
pub proof fn lemma_plan_price(plan: SubscriptionPlan, is_annual: bool)
    ensures
        price_of(plan, is_annual) == (if is_annual { plan.price_annual } else { plan.price_monthly }),
{
}

/// A new subscription pays the plan's price for its billing period: the
/// annual price for a year of 365 days, or the monthly price for 30 days.
pub proof fn lemma_subscribe_pays_period_price(
    s: SubscriptionManagerState,
    auth: Auth,
    now: u64,
    subscriber: u64,
    tier: SubscriptionTier,
    is_annual: bool,
)
    requires
        s.subscribe_error(auth, now, subscriber, tier, is_annual) is None,
    ensures
        ({
            let plan = s.plans[rank_of(tier)];
            let amount = price_of(plan, is_annual);
            &&& is_annual ==> amount == plan.price_annual && now + period_of(is_annual) == now + 31_536_000
            &&& !is_annual ==> amount == plan.price_monthly && now + period_of(is_annual) == now + 2_592_000
            &&& amount > 0 ==> s.charge_of(subscriber, amount) == seq![
                Transfer {
                    token: s.token.unwrap(),
                    from: Party::Account(subscriber),
                    to: Party::Account(s.treasury.unwrap()),
                    amount,
                },
            ]
        }),
{
}

/// Tiers are ranked from Starter up to Enterprise: each tier ranks strictly
/// above the one before it.
pub proof fn lemma_tier_order()
    ensures
        rank_of(SubscriptionTier::Starter) < rank_of(SubscriptionTier::Growth),
        rank_of(SubscriptionTier::Growth) < rank_of(SubscriptionTier::Business),
        rank_of(SubscriptionTier::Business) < rank_of(SubscriptionTier::Enterprise),
{
}

/// A renewal adds one billing period (365 days when annual, 30 otherwise)
/// to the later of the current expiry and now.
pub proof fn lemma_renewal_adds_one_period(expires_at: u64, now: u64, is_annual: bool)
    ensures
        renewed_expiry(expires_at, now, is_annual) == (if expires_at > now {
            expires_at as int
        } else {
            now as int
        }) + (if is_annual {
            365 * 86_400
        } else {
            30 * 86_400
        }),
{
}

/// An upgrade charges the new plan's price for the chosen period less the
/// credit for the current subscription, or nothing when the credit covers it.
pub proof fn lemma_upgrade_charges_difference(
    s: SubscriptionManagerState,
    subscriber: u64,
    new_tier: SubscriptionTier,
    is_annual: bool,
    now: u64,
)
    ensures
        ({
            let plan = s.plans[rank_of(new_tier)];
            let price: int = if is_annual { plan.price_annual as int } else { plan.price_monthly as int };
            let credit = s.credit_at(subscriber, now);
            &&& price > credit ==> s.upgrade_charge(subscriber, new_tier, is_annual, now) == price - credit
            &&& price <= credit ==> s.upgrade_charge(subscriber, new_tier, is_annual, now) == 0
        }),
{
}

} // verus!
