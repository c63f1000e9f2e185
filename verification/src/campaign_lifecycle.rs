//! Ad campaign states and the transitions between them, with a log of every
//! transition.
use vstd::prelude::*;
use std::collections::BTreeMap;
use crate::common::{Auth, Error, Ledger};

verus! {

/// The states of a campaign.
#[derive(Clone, Copy, PartialEq, Eq, Structural, Debug)]
pub enum LifecycleState {
    Draft,
    PendingReview,
    Active,
    Paused,
    Completed,
    Cancelled,
    Expired,
    Archived,
    Rejected,
}

/// A campaign's state and the moments it changed.
#[derive(Clone, Copy, PartialEq, Eq, Structural, Debug)]
pub struct CampaignLifecycle {
    pub campaign_id: u64,
    pub advertiser: u64,
    pub state: LifecycleState,
    pub created_at: u64,
    pub activated_at: Option<u64>,
    pub paused_at: Option<u64>,
    pub completed_at: Option<u64>,
    pub cancelled_at: Option<u64>,
    pub pause_count: u32,
    pub extension_count: u32,
    pub original_end_ledger: u32,
    pub current_end_ledger: u32,
}

/// One entry of a campaign's transition log.
#[derive(Clone, Debug)]
pub struct StateTransition {
    pub from_state: LifecycleState,
    pub to_state: LifecycleState,
    pub actor: u64,
    pub reason: String,
    pub timestamp: u64,
}

/// The transitions the lifecycle allows: a draft goes to review or is
/// cancelled; a campaign under review is activated, rejected or cancelled;
/// an active one is paused, completed, cancelled or expires; a paused one is
/// resumed or cancelled. No other state has a way out.
pub open spec fn is_valid_transition(from: LifecycleState, to: LifecycleState) -> bool {
    match from {
        LifecycleState::Draft => to == LifecycleState::PendingReview || to == LifecycleState::Cancelled,
        LifecycleState::PendingReview => to == LifecycleState::Active || to == LifecycleState::Rejected || to
            == LifecycleState::Cancelled,
        LifecycleState::Active => to == LifecycleState::Paused || to == LifecycleState::Completed || to
            == LifecycleState::Cancelled || to == LifecycleState::Expired,
        LifecycleState::Paused => to == LifecycleState::Active || to == LifecycleState::Cancelled,
        _ => false,
    }
}

/// The number of moves into `Paused` among the first `n` entries of a
/// campaign's log.
pub open spec fn paused_moves(log: Map<(u64, u32), StateTransition>, campaign_id: u64, n: nat) -> nat
    decreases n,
{
    if n == 0 {
        0
    } else {
        paused_moves(log, campaign_id, (n - 1) as nat) + (if log[(campaign_id, (n - 1) as u32)].to_state
            == LifecycleState::Paused {
            1nat
        } else {
            0nat
        })
    }
}

/// Whether each of the first `count` entries of a campaign's log ends where
/// the next one starts.
pub open spec fn chained(log: Map<(u64, u32), StateTransition>, campaign_id: u64, count: u32) -> bool {
    forall|i: u32|
        #![trigger log[(campaign_id, i)]]
        i + 1 < count ==> log[(campaign_id, i)].to_state == log[(campaign_id, (i + 1) as u32)].from_state
}

/// The contract's storage, as values.
pub struct CampaignLifecycleState {
    pub admin: Option<u64>,
    pub lifecycle_counter: u64,
    pub lifecycles: Map<u64, CampaignLifecycle>,
    pub transition_counts: Map<u64, u32>,
    /// Transition log entries by campaign and position in the log.
    pub transitions: Map<(u64, u32), StateTransition>,
}

/// A campaign's lifecycle after it moves to `new_state` at `now`.
pub open spec fn apply_transition(l: CampaignLifecycle, new_state: LifecycleState, now: u64) -> CampaignLifecycle {
    let l2 = match new_state {
        LifecycleState::Active => CampaignLifecycle { activated_at: Some(now), ..l },
        LifecycleState::Paused => CampaignLifecycle {
            paused_at: Some(now),
            pause_count: (l.pause_count + 1) as u32,
            ..l
        },
        LifecycleState::Completed => CampaignLifecycle { completed_at: Some(now), ..l },
        LifecycleState::Cancelled => CampaignLifecycle { cancelled_at: Some(now), ..l },
        _ => l,
    };
    CampaignLifecycle { state: new_state, ..l2 }
}

impl CampaignLifecycleState {
    /// What every reachable state satisfies: a campaign's transition log
    /// holds exactly the positions below its count.
    pub open spec fn wf(self) -> bool {
        forall|c: u64, i: u32| #[trigger] self.transitions.contains_key((c, i)) <==> i < self.transition_count(c)
    }

    /// The number of entries in a campaign's transition log.
    pub open spec fn transition_count(self, campaign_id: u64) -> u32 {
        if self.transition_counts.contains_key(campaign_id) {
            self.transition_counts[campaign_id]
        } else {
            0
        }
    }

    /// The storage after a campaign is registered as a draft ending at
    /// `end_ledger`, and counted.
    pub open spec fn after_register(self, advertiser: u64, campaign_id: u64, end_ledger: u32, now: u64) -> Self {
        CampaignLifecycleState {
            lifecycles: self.lifecycles.insert(
                campaign_id,
                CampaignLifecycle {
                    campaign_id,
                    advertiser,
                    state: LifecycleState::Draft,
                    created_at: now,
                    activated_at: None,
                    paused_at: None,
                    completed_at: None,
                    cancelled_at: None,
                    pause_count: 0,
                    extension_count: 0,
                    original_end_ledger: end_ledger,
                    current_end_ledger: end_ledger,
                },
            ),
            lifecycle_counter: (self.lifecycle_counter + 1) as u64,
            ..self
        }
    }

    /// The storage after a campaign moves to `new_state` at `now`, with the
    /// move appended to its log.
    pub open spec fn after_transition(
        self,
        actor: u64,
        campaign_id: u64,
        new_state: LifecycleState,
        reason: String,
        now: u64,
    ) -> Self {
        let old_l = self.lifecycles[campaign_id];
        let count = self.transition_count(campaign_id);
        CampaignLifecycleState {
            lifecycles: self.lifecycles.insert(campaign_id, apply_transition(old_l, new_state, now)),
            transition_counts: self.transition_counts.insert(campaign_id, (count + 1) as u32),
            transitions: self.transitions.insert(
                (campaign_id, count),
                StateTransition { from_state: old_l.state, to_state: new_state, actor, reason, timestamp: now },
            ),
            ..self
        }
    }

    /// The storage after a campaign's end is pushed back by `extra_ledgers`.
    pub open spec fn after_extend(self, campaign_id: u64, extra_ledgers: u32) -> Self {
        let l = self.lifecycles[campaign_id];
        CampaignLifecycleState {
            lifecycles: self.lifecycles.insert(
                campaign_id,
                CampaignLifecycle {
                    current_end_ledger: (l.current_end_ledger + extra_ledgers) as u32,
                    extension_count: (l.extension_count + 1) as u32,
                    ..l
                },
            ),
            ..self
        }
    }

    /// Whether a campaign's log tells its history: it starts from a draft,
    /// each entry's target is the next entry's source, the last target is
    /// the campaign's state, and its pause count is the number of moves
    /// into `Paused`.
    pub open spec fn log_consistent(self, campaign_id: u64) -> bool {
        let l = self.lifecycles[campaign_id];
        let count = self.transition_count(campaign_id);
        &&& self.lifecycles.contains_key(campaign_id)
        &&& count == 0 ==> l.state == LifecycleState::Draft
        &&& count > 0 ==> self.transitions[(campaign_id, 0)].from_state == LifecycleState::Draft
        &&& count > 0 ==> self.transitions[(campaign_id, (count - 1) as u32)].to_state == l.state
        &&& chained(self.transitions, campaign_id, count)
        &&& l.pause_count == paused_moves(self.transitions, campaign_id, count as nat)
    }

    pub open spec fn transition_error(
        self,
        auth: Auth,
        actor: u64,
        campaign_id: u64,
        new_state: LifecycleState,
    ) -> Option<Error> {
        if !auth.authorizes(actor) {
            Some(Error::AuthRequired)
        } else if !self.lifecycles.contains_key(campaign_id) {
            Some(Error::LifecycleNotFound)
        } else if self.admin is None {
            Some(Error::NotInitialized)
        } else if actor != self.lifecycles[campaign_id].advertiser && Some(actor) != self.admin {
            Some(Error::Unauthorized)
        } else if !is_valid_transition(self.lifecycles[campaign_id].state, new_state) {
            Some(Error::InvalidStateTransition)
        } else if new_state == LifecycleState::Paused && self.lifecycles[campaign_id].pause_count == u32::MAX {
            Some(Error::Overflow)
        } else if self.transition_count(campaign_id) == u32::MAX {
            Some(Error::Overflow)
        } else {
            None
        }
    }
}

/// The campaign-lifecycle contract.
pub struct CampaignLifecycleContract {
    admin: Option<u64>,
    lifecycle_counter: u64,
    lifecycles: BTreeMap<u64, CampaignLifecycle>,
    transition_counts: BTreeMap<u64, u32>,
    transitions: BTreeMap<(u64, u32), StateTransition>,
}

impl View for CampaignLifecycleContract {
    type V = CampaignLifecycleState;

    closed spec fn view(&self) -> CampaignLifecycleState {
        CampaignLifecycleState {
            admin: self.admin,
            lifecycle_counter: self.lifecycle_counter,
            lifecycles: self.lifecycles@,
            transition_counts: self.transition_counts@,
            transitions: self.transitions@,
        }
    }
}

impl CampaignLifecycleContract {
    /// A contract with empty storage.
    pub fn new() -> (c: Self)
        ensures
            c@.wf(),
            c@ == (CampaignLifecycleState {
                admin: None,
                lifecycle_counter: 0,
                lifecycles: Map::empty(),
                transition_counts: Map::empty(),
                transitions: Map::empty(),
            }),
    {
        CampaignLifecycleContract {
            admin: None,
            lifecycle_counter: 0,
            lifecycles: BTreeMap::new(),
            transition_counts: BTreeMap::new(),
            transitions: BTreeMap::new(),
        }
    }

    /// Stores the administrator and starts the campaign counter at 0.
    pub fn initialize(&mut self, auth: &Auth, admin: u64) -> (r: Result<(), Error>)
        requires
            old(self)@.wf(),
        ensures
            final(self)@.wf(),
            r == crate::common::outcome(
                if old(self)@.admin is Some {
                    Some(Error::AlreadyInitialized)
                } else if !auth.authorizes(admin) {
                    Some(Error::AuthRequired)
                } else {
                    None
                },
                (),
            ),
            r is Err ==> final(self)@ == old(self)@,
            r is Ok ==> final(self)@ == (CampaignLifecycleState {
                admin: Some(admin),
                lifecycle_counter: 0,
                ..old(self)@
            }),
    {
        if self.admin.is_some() {
            return Err(Error::AlreadyInitialized);
        }
        if !auth.check(admin) {
            return Err(Error::AuthRequired);
        }
        self.admin = Some(admin);
        self.lifecycle_counter = 0;
        Ok(())
    }

    /// Registers a campaign as a draft ending at `end_ledger`, replacing any
    /// earlier registration under the same id, and counts it.
    pub fn register_campaign(
        &mut self,
        auth: &Auth,
        ledger: &Ledger,
        advertiser: u64,
        campaign_id: u64,
        end_ledger: u32,
    ) -> (r: Result<(), Error>)
        requires
            old(self)@.wf(),
        ensures
            final(self)@.wf(),
            r == crate::common::outcome(
                if !auth.authorizes(advertiser) {
                    Some(Error::AuthRequired)
                } else if old(self)@.lifecycle_counter == u64::MAX {
                    Some(Error::Overflow)
                } else {
                    None
                },
                (),
            ),
            r is Err ==> final(self)@ == old(self)@,
            r is Ok ==> final(self)@ == old(self)@.after_register(advertiser, campaign_id, end_ledger, ledger.timestamp),
    {
        if !auth.check(advertiser) {
            return Err(Error::AuthRequired);
        }
        if self.lifecycle_counter == u64::MAX {
            return Err(Error::Overflow);
        }
        let lifecycle = CampaignLifecycle {
            campaign_id,
            advertiser,
            state: LifecycleState::Draft,
            created_at: ledger.timestamp,
            activated_at: None,
            paused_at: None,
            completed_at: None,
            cancelled_at: None,
            pause_count: 0,
            extension_count: 0,
            original_end_ledger: end_ledger,
            current_end_ledger: end_ledger,
        };
        self.lifecycles.insert(campaign_id, lifecycle);
        self.lifecycle_counter = self.lifecycle_counter + 1;
        Ok(())
    }

    /// Moves a campaign to `new_state`, at the request of its advertiser or
    /// of the administrator, if the lifecycle allows that transition, and
    /// appends the transition to the campaign's log.
    pub fn transition(
        &mut self,
        auth: &Auth,
        ledger: &Ledger,
        actor: u64,
        campaign_id: u64,
        new_state: LifecycleState,
        reason: String,
    ) -> (r: Result<(), Error>)
        requires
            old(self)@.wf(),
        ensures
            final(self)@.wf(),
            r == crate::common::outcome(old(self)@.transition_error(*auth, actor, campaign_id, new_state), ()),
            r is Err ==> final(self)@ == old(self)@,
            r is Ok ==> final(self)@ == old(self)@.after_transition(actor, campaign_id, new_state, reason, ledger.timestamp),
    {
        if !auth.check(actor) {
            return Err(Error::AuthRequired);
        }
        let mut lifecycle = match self.lifecycles.get(&campaign_id) {
            Some(l) => *l,
            None => {
                return Err(Error::LifecycleNotFound);
            },
        };
        let admin = match self.admin {
            Some(a) => a,
            None => {
                return Err(Error::NotInitialized);
            },
        };
        if actor != lifecycle.advertiser && actor != admin {
            return Err(Error::Unauthorized);
        }
        let old_state = lifecycle.state;
        match Self::_validate_transition(&old_state, &new_state) {
            Ok(()) => {},
            Err(e) => {
                return Err(e);
            },
        }
        if new_state == LifecycleState::Paused && lifecycle.pause_count == u32::MAX {
            return Err(Error::Overflow);
        }
        let count: u32 = match self.transition_counts.get(&campaign_id) {
            Some(c) => *c,
            None => 0,
        };
        if count == u32::MAX {
            return Err(Error::Overflow);
        }
        let now = ledger.timestamp;
        match new_state {
            LifecycleState::Active => {
                lifecycle.activated_at = Some(now);
            },
            LifecycleState::Paused => {
                lifecycle.paused_at = Some(now);
                lifecycle.pause_count = lifecycle.pause_count + 1;
            },
            LifecycleState::Completed => {
                lifecycle.completed_at = Some(now);
            },
            LifecycleState::Cancelled => {
                lifecycle.cancelled_at = Some(now);
            },
            _ => {},
        }
        lifecycle.state = new_state;
        self.lifecycles.insert(campaign_id, lifecycle);
        let entry = StateTransition { from_state: old_state, to_state: new_state, actor, reason, timestamp: now };
        self.transitions.insert((campaign_id, count), entry);
        self.transition_counts.insert(campaign_id, count + 1);
        Ok(())
    }

    /// Pushes a campaign's end back by `extra_ledgers`; only its advertiser may.
    pub fn extend_campaign(&mut self, auth: &Auth, advertiser: u64, campaign_id: u64, extra_ledgers: u32) -> (r: Result<
        (),
        Error,
    >)
        requires
            old(self)@.wf(),
        ensures
            final(self)@.wf(),
            r == crate::common::outcome(
                if !auth.authorizes(advertiser) {
                    Some(Error::AuthRequired)
                } else if !old(self)@.lifecycles.contains_key(campaign_id) {
                    Some(Error::LifecycleNotFound)
                } else if old(self)@.lifecycles[campaign_id].advertiser != advertiser {
                    Some(Error::Unauthorized)
                } else if old(self)@.lifecycles[campaign_id].current_end_ledger + extra_ledgers > u32::MAX
                    || old(self)@.lifecycles[campaign_id].extension_count == u32::MAX {
                    Some(Error::Overflow)
                } else {
                    None
                },
                (),
            ),
            r is Err ==> final(self)@ == old(self)@,
            r is Ok ==> final(self)@ == old(self)@.after_extend(campaign_id, extra_ledgers),
    {
        if !auth.check(advertiser) {
            return Err(Error::AuthRequired);
        }
        let mut lifecycle = match self.lifecycles.get(&campaign_id) {
            Some(l) => *l,
            None => {
                return Err(Error::LifecycleNotFound);
            },
        };
        if lifecycle.advertiser != advertiser {
            return Err(Error::Unauthorized);
        }
        let end = match lifecycle.current_end_ledger.checked_add(extra_ledgers) {
            Some(e) => e,
            None => {
                return Err(Error::Overflow);
            },
        };
        if lifecycle.extension_count == u32::MAX {
            return Err(Error::Overflow);
        }
        lifecycle.current_end_ledger = end;
        lifecycle.extension_count = lifecycle.extension_count + 1;
        self.lifecycles.insert(campaign_id, lifecycle);
        Ok(())
    }

    /// A campaign's lifecycle, if registered.
    pub fn get_lifecycle(&self, campaign_id: u64) -> (r: Option<CampaignLifecycle>)
        ensures
            r == (if self@.lifecycles.contains_key(campaign_id) {
                Some(self@.lifecycles[campaign_id])
            } else {
                None::<CampaignLifecycle>
            }),
    {
        match self.lifecycles.get(&campaign_id) {
            Some(l) => Some(*l),
            None => None,
        }
    }

    /// The entry at position `index` of a campaign's transition log.
    pub fn get_transition(&self, campaign_id: u64, index: u32) -> (r: Option<&StateTransition>)
        ensures
            match r {
                Some(t) => self@.transitions.contains_key((campaign_id, index)) && *t == self@.transitions[(
                campaign_id,
                index,
                )],
                None => !self@.transitions.contains_key((campaign_id, index)),
            },
    {
        self.transitions.get(&(campaign_id, index))
    }

    /// The number of entries in a campaign's transition log.
    pub fn get_transition_count(&self, campaign_id: u64) -> (r: u32)
        ensures
            r == self@.transition_count(campaign_id),
    {
        match self.transition_counts.get(&campaign_id) {
            Some(c) => *c,
            None => 0,
        }
    }

    /// Refuses a transition that the lifecycle does not allow.
    pub fn _validate_transition(from: &LifecycleState, to: &LifecycleState) -> (r: Result<(), Error>)
        ensures
            r == (if is_valid_transition(*from, *to) {
                Ok::<(), Error>(())
            } else {
                Err(Error::InvalidStateTransition)
            }),
    {
        let valid = match from {
            LifecycleState::Draft => matches!(to, LifecycleState::PendingReview | LifecycleState::Cancelled),
            LifecycleState::PendingReview => matches!(
                to,
                LifecycleState::Active | LifecycleState::Rejected | LifecycleState::Cancelled
            ),
            LifecycleState::Active => matches!(
                to,
                LifecycleState::Paused | LifecycleState::Completed | LifecycleState::Cancelled
                    | LifecycleState::Expired
            ),
            LifecycleState::Paused => matches!(to, LifecycleState::Active | LifecycleState::Cancelled),
            _ => false,
        };
        if !valid {
            return Err(Error::InvalidStateTransition);
        }
        Ok(())
    }
}

/// Completed, cancelled, expired, archived and rejected campaigns are final:
/// no transition leaves them, so the contract refuses every move of such a
/// campaign and its state never changes again.
pub proof fn lemma_final_states(
    from: LifecycleState,
    to: LifecycleState,
    s: CampaignLifecycleState,
    auth: Auth,
    actor: u64,
    campaign_id: u64,
)
    requires
        from == LifecycleState::Completed || from == LifecycleState::Cancelled || from == LifecycleState::Expired
            || from == LifecycleState::Archived || from == LifecycleState::Rejected,
    ensures
        !is_valid_transition(from, to),
        s.lifecycles.contains_key(campaign_id) && s.lifecycles[campaign_id].state == from ==> s.transition_error(
            auth,
            actor,
            campaign_id,
            to,
        ) is Some,
{
}

/// No transition leads back to a draft, and no transition keeps a campaign
/// in the state it is in.
pub proof fn lemma_no_return_to_draft(from: LifecycleState, to: LifecycleState)
    ensures
        !is_valid_transition(from, LifecycleState::Draft),
        !is_valid_transition(to, to),
{
}

/// A campaign's transition log grows by one entry per transition: every
/// position below the count holds an entry, and no other does.
pub proof fn lemma_log_positions(s: CampaignLifecycleState, campaign_id: u64, index: u32)
    requires
        s.wf(),
    ensures
        s.transitions.contains_key((campaign_id, index)) <==> index < s.transition_count(campaign_id),
{
}

/// Appending an entry at position `count` of a campaign's log leaves the
/// moves into `Paused` among the entries before it as they were.
proof fn lemma_paused_moves_append(
    log: Map<(u64, u32), StateTransition>,
    campaign_id: u64,
    count: u32,
    entry: StateTransition,
    n: nat,
)
    requires
        n <= count,
    ensures
        paused_moves(log.insert((campaign_id, count), entry), campaign_id, n) == paused_moves(log, campaign_id, n),
    decreases n,
{
    if n > 0 {
        lemma_paused_moves_append(log, campaign_id, count, entry, (n - 1) as nat);
    }
}

/// Appending an entry that starts where the last one ends keeps a log chained.
proof fn lemma_chained_append(
    log: Map<(u64, u32), StateTransition>,
    campaign_id: u64,
    count: u32,
    entry: StateTransition,
)
    requires
        count < u32::MAX,
        chained(log, campaign_id, count),
        count > 0 ==> log[(campaign_id, (count - 1) as u32)].to_state == entry.from_state,
    ensures
        chained(log.insert((campaign_id, count), entry), campaign_id, (count + 1) as u32),
{
    let log2 = log.insert((campaign_id, count), entry);
    assert forall|i: u32|
        #![trigger log2[(campaign_id, i)]]
        i + 1 < count + 1 implies log2[(campaign_id, i)].to_state == log2[(campaign_id, (i + 1) as u32)].from_state by {
        if i + 1 < count {
            assert(log[(campaign_id, i)].to_state == log[(campaign_id, (i + 1) as u32)].from_state);
        }
    }
}

/// Registering a campaign that has no log yet starts a log that tells its
/// history. (Registering a campaign again resets its state while its log
/// stays, and is left out.)
pub proof fn lemma_register_starts_log(
    s: CampaignLifecycleState,
    advertiser: u64,
    campaign_id: u64,
    end_ledger: u32,
    now: u64,
)
    requires
        s.transition_count(campaign_id) == 0,
    ensures
        s.after_register(advertiser, campaign_id, end_ledger, now).log_consistent(campaign_id),
{
    let s1 = s.after_register(advertiser, campaign_id, end_ledger, now);
    assert(s1.transition_count(campaign_id) == 0);
}

/// Every transition that goes through appends one entry that continues the
/// campaign's history, so the log's count is the number of moves that went
/// through and its pause count the number of moves into `Paused`.
pub proof fn lemma_transition_continues_log(
    s: CampaignLifecycleState,
    auth: Auth,
    actor: u64,
    campaign_id: u64,
    new_state: LifecycleState,
    reason: String,
    now: u64,
)
    requires
        s.log_consistent(campaign_id),
        s.transition_error(auth, actor, campaign_id, new_state) is None,
    ensures
        s.after_transition(actor, campaign_id, new_state, reason, now).log_consistent(campaign_id),
        s.after_transition(actor, campaign_id, new_state, reason, now).transition_count(campaign_id)
            == s.transition_count(campaign_id) + 1,
{
    let count = s.transition_count(campaign_id);
    let l = s.lifecycles[campaign_id];
    let entry = StateTransition { from_state: l.state, to_state: new_state, actor, reason, timestamp: now };
    assert(new_state == LifecycleState::Paused ==> l.pause_count < u32::MAX);
    assert(count < u32::MAX);
    assert(is_valid_transition(l.state, new_state));
    let l2 = apply_transition(l, new_state, now);
    assert(l2.state == new_state);
    assert(l2.pause_count == (if new_state == LifecycleState::Paused {
        l.pause_count + 1
    } else {
        l.pause_count as int
    }));
    let log2 = s.transitions.insert((campaign_id, count), entry);
    let s2 = s.after_transition(actor, campaign_id, new_state, reason, now);
    assert(s2.transitions == log2);
    assert(s2.lifecycles[campaign_id] == l2);
    assert(s2.transition_count(campaign_id) == count + 1);
    lemma_chained_append(s.transitions, campaign_id, count, entry);
    lemma_paused_moves_append(s.transitions, campaign_id, count, entry, count as nat);
    assert(paused_moves(log2, campaign_id, (count + 1) as nat) == paused_moves(log2, campaign_id, count as nat) + (
    if new_state == LifecycleState::Paused {
        1nat
    } else {
        0nat
    }));
    if count > 0 {
        assert(log2[(campaign_id, 0)] == s.transitions[(campaign_id, 0)]);
    }
}

/// Extending a campaign leaves its history as it was.
pub proof fn lemma_extend_keeps_log(s: CampaignLifecycleState, campaign_id: u64, extra_ledgers: u32)
    requires
        s.log_consistent(campaign_id),
    ensures
        s.after_extend(campaign_id, extra_ledgers).log_consistent(campaign_id),
{
    let s1 = s.after_extend(campaign_id, extra_ledgers);
    assert(s1.transitions == s.transitions);
    assert(s1.transition_count(campaign_id) == s.transition_count(campaign_id));
}

/// A move stamps its moment: after a transition at `now`, the campaign is in
/// the new state, a move to Active, Paused, Completed or Cancelled records
/// `now` as the moment it was activated, paused, completed or cancelled, a
/// pause is counted, and every other field is kept.
pub proof fn lemma_transition_stamps(l: CampaignLifecycle, to: LifecycleState, now: u64)
    requires
        to == LifecycleState::Paused ==> l.pause_count < u32::MAX,
    ensures
        ({
            let l2 = apply_transition(l, to, now);
            &&& l2.state == to
            &&& l2.activated_at == (if to == LifecycleState::Active { Some(now) } else { l.activated_at })
            &&& l2.paused_at == (if to == LifecycleState::Paused { Some(now) } else { l.paused_at })
            &&& l2.completed_at == (if to == LifecycleState::Completed { Some(now) } else { l.completed_at })
            &&& l2.cancelled_at == (if to == LifecycleState::Cancelled { Some(now) } else { l.cancelled_at })
            &&& l2.pause_count == (if to == LifecycleState::Paused { l.pause_count + 1 } else { l.pause_count as int })
            &&& l2.campaign_id == l.campaign_id && l2.advertiser == l.advertiser && l2.created_at == l.created_at
            &&& l2.extension_count == l.extension_count && l2.original_end_ledger == l.original_end_ledger
            &&& l2.current_end_ledger == l.current_end_ledger
        }),
{
}

/// The same, for the contract: a transition that goes through leaves the
/// campaign in the new state with the moment of the move recorded.
pub proof fn lemma_transition_records_moment(
    s: CampaignLifecycleState,
    auth: Auth,
    actor: u64,
    campaign_id: u64,
    to: LifecycleState,
    reason: String,
    now: u64,
)
    requires
        s.transition_error(auth, actor, campaign_id, to) is None,
    ensures
        ({
            let l2 = s.after_transition(actor, campaign_id, to, reason, now).lifecycles[campaign_id];
            &&& l2.state == to
            &&& to == LifecycleState::Active ==> l2.activated_at == Some(now)
            &&& to == LifecycleState::Paused ==> l2.paused_at == Some(now)
            &&& to == LifecycleState::Completed ==> l2.completed_at == Some(now)
            &&& to == LifecycleState::Cancelled ==> l2.cancelled_at == Some(now)
        }),
{
    lemma_transition_stamps(s.lifecycles[campaign_id], to, now);
}

/// The transitions the lifecycle allows are exactly these: Draft to
/// PendingReview or Cancelled; PendingReview to Active, Rejected or
/// Cancelled; Active to Paused, Completed, Cancelled or Expired; Paused to
/// Active or Cancelled.
pub proof fn lemma_transition_table(from: LifecycleState, to: LifecycleState)
    ensures
        is_valid_transition(from, to) == (
        (from == LifecycleState::Draft && to == LifecycleState::PendingReview)
            || (from == LifecycleState::Draft && to == LifecycleState::Cancelled)
            || (from == LifecycleState::PendingReview && to == LifecycleState::Active)
            || (from == LifecycleState::PendingReview && to == LifecycleState::Rejected)
            || (from == LifecycleState::PendingReview && to == LifecycleState::Cancelled)
            || (from == LifecycleState::Active && to == LifecycleState::Paused)
            || (from == LifecycleState::Active && to == LifecycleState::Completed)
            || (from == LifecycleState::Active && to == LifecycleState::Cancelled)
            || (from == LifecycleState::Active && to == LifecycleState::Expired)
            || (from == LifecycleState::Paused && to == LifecycleState::Active)
            || (from == LifecycleState::Paused && to == LifecycleState::Cancelled)),
{
}

/// A registered campaign starts as a draft by its advertiser, created now,
/// never activated, paused, completed or cancelled, with nothing counted,
/// and ending at the given ledger.
pub proof fn lemma_register_starts_draft(
    s: CampaignLifecycleState,
    advertiser: u64,
    campaign_id: u64,
    end_ledger: u32,
    now: u64,
)
    ensures
        ({
            let l = s.after_register(advertiser, campaign_id, end_ledger, now).lifecycles[campaign_id];
            &&& l.state == LifecycleState::Draft && l.advertiser == advertiser && l.campaign_id == campaign_id
            &&& l.created_at == now
            &&& l.activated_at is None && l.paused_at is None && l.completed_at is None && l.cancelled_at is None
            &&& l.pause_count == 0 && l.extension_count == 0
            &&& l.original_end_ledger == end_ledger && l.current_end_ledger == end_ledger
        }),
{
}

} // verus!
