//! Reward programs that distribute the platform's token to participants,
//! within each program's budget and lifetime, for them to claim.
use vstd::prelude::*;
use std::collections::BTreeMap;
use crate::common::{Auth, Error, Ledger, Party, Transfer, fits_i128, lemma_map_total_insert, map_total};

verus! {

/// A reward program.
#[derive(Clone, Debug)]
pub struct RewardProgram {
    pub program_id: u32,
    pub name: String,
    pub total_budget: i128,
    pub distributed: i128,
    pub reward_per_unit: i128,
    pub start_ledger: u32,
    pub end_ledger: u32,
    pub is_active: bool,
}

/// What a user has earned and claimed.
#[derive(Clone, Copy, PartialEq, Eq, Structural, Debug)]
pub struct UserRewards {
    pub user: u64,
    pub total_earned: i128,
    pub total_claimed: i128,
    pub pending: i128,
    pub last_earned: u64,
}

/// The contract's storage, as values.
pub struct RewardsDistributorState {
    pub admin: Option<u64>,
    pub reward_token: Option<u64>,
    pub program_counter: u32,
    pub programs: Map<u32, RewardProgram>,
    pub user_rewards: Map<u64, UserRewards>,
}

/// What a program has distributed.
pub open spec fn distributed_by(p: RewardProgram) -> int {
    p.distributed as int
}

/// What a user has earned.
pub open spec fn earned_by(u: UserRewards) -> int {
    u.total_earned as int
}

/// What all programs together have distributed.
pub open spec fn total_distributed(programs: Map<u32, RewardProgram>) -> int {
    map_total(programs, |p: RewardProgram| distributed_by(p))
}

/// What all users together have earned.
pub open spec fn total_earned(users: Map<u64, UserRewards>) -> int {
    map_total(users, |u: UserRewards| earned_by(u))
}

/// Setting one program changes the total distributed by the difference in
/// what it has distributed.
pub proof fn lemma_total_distributed_insert(m: Map<u32, RewardProgram>, k: u32, v: RewardProgram)
    requires
        m.dom().finite(),
    ensures
        total_distributed(m.insert(k, v)) == total_distributed(m) - (if m.dom().contains(k) {
            m[k].distributed as int
        } else {
            0
        }) + v.distributed,
{
    lemma_map_total_insert(m, |p: RewardProgram| distributed_by(p), k, v);
}

/// Setting one user's rewards changes the total earned by the difference in
/// what that user has earned.
pub proof fn lemma_total_earned_insert(m: Map<u64, UserRewards>, k: u64, v: UserRewards)
    requires
        m.dom().finite(),
    ensures
        total_earned(m.insert(k, v)) == total_earned(m) - (if m.dom().contains(k) {
            m[k].total_earned as int
        } else {
            0
        }) + v.total_earned,
{
    lemma_map_total_insert(m, |u: UserRewards| earned_by(u), k, v);
}

impl RewardsDistributorState {
    /// What every reachable state satisfies: a user's pending rewards are
    /// what it has earned less what it has claimed; what the users have
    /// earned together is what the programs have distributed together;
    /// programs are numbered from 1 to the program count; and there are no
    /// programs before the contract is initialised.
    pub open spec fn wf(self) -> bool {
        &&& forall|u: u64| #[trigger] self.user_rewards.contains_key(u) ==> self.user_rewards[u].pending
            == self.user_rewards[u].total_earned - self.user_rewards[u].total_claimed
        &&& self.programs.dom().finite()
        &&& self.user_rewards.dom().finite()
        &&& forall|k: u32| #[trigger] self.programs.contains_key(k) ==> 1 <= k <= self.program_counter
        &&& total_distributed(self.programs) == total_earned(self.user_rewards)
        &&& self.admin is None ==> self.programs.dom() =~= Set::<u32>::empty()
    }

    pub open spec fn admin_error(self, auth: Auth, admin: u64) -> Option<Error> {
        if !auth.authorizes(admin) {
            Some(Error::AuthRequired)
        } else if self.admin is None {
            Some(Error::NotInitialized)
        } else if self.admin != Some(admin) {
            Some(Error::Unauthorized)
        } else {
            None
        }
    }

    /// A user's rewards, or the empty record it starts from.
    pub open spec fn rewards_of(self, user: u64) -> UserRewards {
        if self.user_rewards.contains_key(user) {
            self.user_rewards[user]
        } else {
            UserRewards { user, total_earned: 0, total_claimed: 0, pending: 0, last_earned: 0 }
        }
    }

    /// The storage after a new program opens: active, with nothing
    /// distributed, lasting `duration` ledgers from `sequence`, under the id
    /// one more than the last.
    pub open spec fn after_create(
        self,
        name: String,
        budget: i128,
        reward_per_unit: i128,
        sequence: u32,
        duration: u32,
    ) -> Self {
        let id = (self.program_counter + 1) as u32;
        RewardsDistributorState {
            program_counter: id,
            programs: self.programs.insert(
                id,
                RewardProgram {
                    program_id: id,
                    name,
                    total_budget: budget,
                    distributed: 0,
                    reward_per_unit,
                    start_ledger: sequence,
                    end_ledger: (sequence + duration) as u32,
                    is_active: true,
                },
            ),
            ..self
        }
    }

    /// The storage after `amount` of program `program_id` is credited to
    /// `recipient` at `now`.
    pub open spec fn after_distribute(self, recipient: u64, amount: i128, program_id: u32, now: u64) -> Self {
        let p = self.programs[program_id];
        let u = self.rewards_of(recipient);
        RewardsDistributorState {
            programs: self.programs.insert(program_id, RewardProgram { distributed: (p.distributed + amount) as i128, ..p }),
            user_rewards: self.user_rewards.insert(
                recipient,
                UserRewards {
                    total_earned: (u.total_earned + amount) as i128,
                    pending: (u.pending + amount) as i128,
                    last_earned: now,
                    ..u
                },
            ),
            ..self
        }
    }

    pub open spec fn distribute_error(
        self,
        auth: Auth,
        sequence: u32,
        admin: u64,
        recipient: u64,
        amount: i128,
        program_id: u32,
    ) -> Option<Error> {
        let p = self.programs[program_id];
        let u = self.rewards_of(recipient);
        match self.admin_error(auth, admin) {
            Some(e) => Some(e),
            None => if !self.programs.contains_key(program_id) {
                Some(Error::ProgramNotFound)
            } else if !p.is_active {
                Some(Error::ProgramNotActive)
            } else if !fits_i128(p.distributed + amount) {
                Some(Error::Overflow)
            } else if p.distributed + amount > p.total_budget {
                Some(Error::ExceedsBudget)
            } else if sequence > p.end_ledger {
                Some(Error::ProgramEnded)
            } else if !fits_i128(u.total_earned + amount) || !fits_i128(u.pending + amount) {
                Some(Error::Overflow)
            } else {
                None
            },
        }
    }

    pub open spec fn claim_error(self, auth: Auth, user: u64) -> Option<Error> {
        let u = self.user_rewards[user];
        if !auth.authorizes(user) {
            Some(Error::AuthRequired)
        } else if !self.user_rewards.contains_key(user) {
            Some(Error::NoRewards)
        } else if u.pending <= 0 {
            Some(Error::NoPendingRewards)
        } else if self.reward_token is None {
            Some(Error::NotInitialized)
        } else if !fits_i128(u.total_claimed + u.pending) {
            Some(Error::Overflow)
        } else {
            None
        }
    }
}

/// The rewards-distributor contract.
pub struct RewardsDistributorContract {
    admin: Option<u64>,
    reward_token: Option<u64>,
    program_counter: u32,
    programs: BTreeMap<u32, RewardProgram>,
    user_rewards: BTreeMap<u64, UserRewards>,
}

impl View for RewardsDistributorContract {
    type V = RewardsDistributorState;

    closed spec fn view(&self) -> RewardsDistributorState {
        RewardsDistributorState {
            admin: self.admin,
            reward_token: self.reward_token,
            program_counter: self.program_counter,
            programs: self.programs@,
            user_rewards: self.user_rewards@,
        }
    }
}

impl RewardsDistributorContract {
    /// A contract with empty storage.
    pub fn new() -> (c: Self)
        ensures
            c@ == (RewardsDistributorState {
                admin: None,
                reward_token: None,
                program_counter: 0,
                programs: Map::empty(),
                user_rewards: Map::empty(),
            }),
            c@.wf(),
    {
        RewardsDistributorContract {
            admin: None,
            reward_token: None,
            program_counter: 0,
            programs: BTreeMap::new(),
            user_rewards: BTreeMap::new(),
        }
    }

    /// Stores the administrator and the reward token.
    pub fn initialize(&mut self, auth: &Auth, admin: u64, reward_token: u64) -> (r: Result<(), Error>)
        requires
            old(self)@.wf(),
        ensures
            final(self)@.wf(),
            r == crate::common::outcome(
                if old(self)@.admin is Some {
                    Some(Error::AlreadyInitialized)
                } else if !auth.authorizes(admin) {
                    Some(Error::AuthRequired)
                } else {
                    None
                },
                (),
            ),
            r is Err ==> final(self)@ == old(self)@,
            r is Ok ==> final(self)@ == (RewardsDistributorState {
                admin: Some(admin),
                reward_token: Some(reward_token),
                program_counter: 0,
                ..old(self)@
            }),
    {
        if self.admin.is_some() {
            return Err(Error::AlreadyInitialized);
        }
        if !auth.check(admin) {
            return Err(Error::AuthRequired);
        }
        self.admin = Some(admin);
        self.reward_token = Some(reward_token);
        self.program_counter = 0;
        Ok(())
    }

    fn check_admin(&self, auth: &Auth, admin: u64) -> (r: Result<(), Error>)
        ensures
            r == crate::common::outcome(self@.admin_error(*auth, admin), ()),
    {
        if !auth.check(admin) {
            return Err(Error::AuthRequired);
        }
        match self.admin {
            None => Err(Error::NotInitialized),
            Some(a) => if a != admin {
                Err(Error::Unauthorized)
            } else {
                Ok(())
            },
        }
    }

    /// Opens an active program with `budget`, lasting `duration_ledgers` from
    /// now, and returns its id, one more than the last; only the
    /// administrator may.
    pub fn create_program(
        &mut self,
        auth: &Auth,
        ledger: &Ledger,
        admin: u64,
        name: String,
        budget: i128,
        reward_per_unit: i128,
        duration_ledgers: u32,
    ) -> (r: Result<u32, Error>)
        requires
            old(self)@.wf(),
        ensures
            final(self)@.wf(),
            match (match old(self)@.admin_error(*auth, admin) {
                Some(e) => Some(e),
                None => if old(self)@.program_counter == u32::MAX || ledger.sequence + duration_ledgers
                    > u32::MAX {
                    Some(Error::Overflow)
                } else {
                    None
                },
            }) {
                Some(e) => r == Err::<u32, Error>(e) && final(self)@ == old(self)@,
                None => {
                    &&& r == Ok::<u32, Error>((old(self)@.program_counter + 1) as u32)
                    &&& final(self)@ == old(self)@.after_create(name, budget, reward_per_unit, ledger.sequence, duration_ledgers)
                },
            },
    {
        match self.check_admin(auth, admin) {
            Ok(()) => {},
            Err(e) => {
                return Err(e);
            },
        }
        if self.program_counter == u32::MAX {
            return Err(Error::Overflow);
        }
        let program_id = self.program_counter + 1;
        let start = ledger.sequence;
        let end = match start.checked_add(duration_ledgers) {
            Some(x) => x,
            None => {
                return Err(Error::Overflow);
            },
        };
        let program = RewardProgram {
            program_id,
            name,
            total_budget: budget,
            distributed: 0,
            reward_per_unit,
            start_ledger: start,
            end_ledger: end,
            is_active: true,
        };
        proof {
            assert(!self@.programs.contains_key(program_id));
            lemma_total_distributed_insert(self.programs@, program_id, program);
        }
        self.programs.insert(program_id, program);
        self.program_counter = program_id;
        Ok(program_id)
    }

    /// Credits `amount` of a program's rewards to `recipient`, within the
    /// program's budget and before its end; only the administrator may.
    pub fn distribute_rewards(
        &mut self,
        auth: &Auth,
        ledger: &Ledger,
        admin: u64,
        recipient: u64,
        amount: i128,
        program_id: u32,
    ) -> (r: Result<(), Error>)
        requires
            old(self)@.wf(),
        ensures
            final(self)@.wf(),
            r == crate::common::outcome(
                old(self)@.distribute_error(*auth, ledger.sequence, admin, recipient, amount, program_id),
                (),
            ),
            r is Err ==> final(self)@ == old(self)@,
            r is Ok ==> final(self)@ == old(self)@.after_distribute(recipient, amount, program_id, ledger.timestamp),
    {
        match self.check_admin(auth, admin) {
            Ok(()) => {},
            Err(e) => {
                return Err(e);
            },
        }
        let mut program = match self.programs.remove(&program_id) {
            Some(p) => p,
            None => {
                assert(self.programs@ =~= old(self).programs@);
                return Err(Error::ProgramNotFound);
            },
        };
        let distributed = if !program.is_active {
            None
        } else {
            program.distributed.checked_add(amount)
        };
        let err = if !program.is_active {
            Some(Error::ProgramNotActive)
        } else {
            match distributed {
                None => Some(Error::Overflow),
                Some(d) => if d > program.total_budget {
                    Some(Error::ExceedsBudget)
                } else if ledger.sequence > program.end_ledger {
                    Some(Error::ProgramEnded)
                } else {
                    None
                },
            }
        };
        let mut rewards = match self.user_rewards.get(&recipient) {
            Some(u) => *u,
            None => UserRewards { user: recipient, total_earned: 0, total_claimed: 0, pending: 0, last_earned: 0 },
        };
        let earned = rewards.total_earned.checked_add(amount);
        let pending = rewards.pending.checked_add(amount);
        let err = match err {
            Some(e) => Some(e),
            None => if earned.is_none() || pending.is_none() {
                Some(Error::Overflow)
            } else {
                None
            },
        };
        match err {
            Some(e) => {
                self.programs.insert(program_id, program);
                assert(self.programs@ =~= old(self).programs@);
                return Err(e);
            },
            None => {},
        }
        program.distributed = distributed.unwrap();
        self.programs.insert(program_id, program);
        assert(self.programs@ =~= old(self).programs@.insert(program_id, program));
        rewards.total_earned = earned.unwrap();
        rewards.pending = pending.unwrap();
        rewards.last_earned = ledger.timestamp;
        proof {
            lemma_total_distributed_insert(old(self)@.programs, program_id, program);
            lemma_total_earned_insert(self.user_rewards@, recipient, rewards);
        }
        self.user_rewards.insert(recipient, rewards);
        Ok(())
    }

    /// Pays the user its pending rewards and returns their amount.
    pub fn claim_rewards(&mut self, auth: &Auth, user: u64) -> (r: Result<(i128, Vec<Transfer>), Error>)
        requires
            old(self)@.wf(),
        ensures
            final(self)@.wf(),
            match old(self)@.claim_error(*auth, user) {
                Some(e) => r == Err::<(i128, Vec<Transfer>), Error>(e) && final(self)@ == old(self)@,
                None => {
                    let u = old(self)@.user_rewards[user];
                    &&& r matches Ok((a, t)) && a == u.pending && t@ == seq![
                        Transfer {
                            token: old(self)@.reward_token.unwrap(),
                            from: Party::Contract,
                            to: Party::Account(user),
                            amount: u.pending,
                        },
                    ]
                    &&& final(self)@ == RewardsDistributorState {
                        user_rewards: old(self)@.user_rewards.insert(
                            user,
                            UserRewards {
                                total_claimed: (u.total_claimed + u.pending) as i128,
                                pending: 0,
                                ..u
                            },
                        ),
                        ..old(self)@
                    }
                },
            },
    {
        if !auth.check(user) {
            return Err(Error::AuthRequired);
        }
        let mut rewards = match self.user_rewards.get(&user) {
            Some(u) => *u,
            None => {
                return Err(Error::NoRewards);
            },
        };
        let pending = rewards.pending;
        if pending <= 0 {
            return Err(Error::NoPendingRewards);
        }
        let token = match self.reward_token {
            Some(t) => t,
            None => {
                return Err(Error::NotInitialized);
            },
        };
        let claimed = match rewards.total_claimed.checked_add(pending) {
            Some(x) => x,
            None => {
                return Err(Error::Overflow);
            },
        };
        rewards.total_claimed = claimed;
        rewards.pending = 0;
        proof {
            lemma_total_earned_insert(self.user_rewards@, user, rewards);
        }
        self.user_rewards.insert(user, rewards);
        let mut transfers: Vec<Transfer> = Vec::new();
        transfers.push(Transfer { token, from: Party::Contract, to: Party::Account(user), amount: pending });
        Ok((pending, transfers))
    }

    /// A program, if it exists.
    pub fn get_program(&self, program_id: u32) -> (r: Option<&RewardProgram>)
        ensures
            match r {
                Some(p) => self@.programs.contains_key(program_id) && *p == self@.programs[program_id],
                None => !self@.programs.contains_key(program_id),
            },
    {
        self.programs.get(&program_id)
    }

    /// A user's rewards, if it has earned any.
    pub fn get_user_rewards(&self, user: u64) -> (r: Option<UserRewards>)
        ensures
            r == (if self@.user_rewards.contains_key(user) {
                Some(self@.user_rewards[user])
            } else {
                None::<UserRewards>
            }),
    {
        match self.user_rewards.get(&user) {
            Some(u) => Some(*u),
            None => None,
        }
    }
}

/// A distribution that goes through leaves the program within its budget.
pub proof fn lemma_distribution_within_budget(
    s: RewardsDistributorState,
    auth: Auth,
    sequence: u32,
    admin: u64,
    recipient: u64,
    amount: i128,
    program_id: u32,
)
    requires
        s.distribute_error(auth, sequence, admin, recipient, amount, program_id) is None,
    ensures
        s.programs[program_id].distributed + amount <= s.programs[program_id].total_budget,
        sequence <= s.programs[program_id].end_ledger,
        s.programs[program_id].is_active,
{
}

/// Whether every program has distributed between 0 and its budget.
pub open spec fn budgets_kept(programs: Map<u32, RewardProgram>) -> bool {
    forall|k: u32| #[trigger] programs.contains_key(k) ==> 0 <= programs[k].distributed <= programs[k].total_budget
}

/// No program ever distributes more than its budget, nor less than nothing:
/// with non-negative budgets and amounts, opening a program and
/// distributing from one keep every program between 0 and its budget (the
/// other operations leave the programs as they are).
pub proof fn lemma_budgets_kept(
    s: RewardsDistributorState,
    name: String,
    budget: i128,
    reward_per_unit: i128,
    sequence: u32,
    duration: u32,
    auth: Auth,
    admin: u64,
    recipient: u64,
    amount: i128,
    program_id: u32,
    now: u64,
)
    requires
        budgets_kept(s.programs),
    ensures
        budget >= 0 ==> budgets_kept(s.after_create(name, budget, reward_per_unit, sequence, duration).programs),
        amount >= 0 && s.distribute_error(auth, sequence, admin, recipient, amount, program_id) is None
            ==> budgets_kept(s.after_distribute(recipient, amount, program_id, now).programs),
{
}

/// An empty contract keeps every program within its budget.
pub proof fn lemma_budgets_kept_empty()
    ensures
        budgets_kept(Map::<u32, RewardProgram>::empty()),
{
}

/// A distribution moves its amount from the program's budget to the
/// recipient: the program has distributed that much more, and the recipient
/// has earned and has pending that much more, earned now; every other
/// program and user is as it was.
pub proof fn lemma_distribution_credits_recipient(
    s: RewardsDistributorState,
    recipient: u64,
    amount: i128,
    program_id: u32,
    now: u64,
    other_program: u32,
    other_user: u64,
)
    requires
        s.programs.contains_key(program_id),
        fits_i128(s.programs[program_id].distributed + amount),
        fits_i128(s.rewards_of(recipient).total_earned + amount),
        fits_i128(s.rewards_of(recipient).pending + amount),
    ensures
        ({
            let s2 = s.after_distribute(recipient, amount, program_id, now);
            let before: UserRewards = if s.user_rewards.contains_key(recipient) {
                s.user_rewards[recipient]
            } else {
                UserRewards { user: recipient, total_earned: 0, total_claimed: 0, pending: 0, last_earned: 0 }
            };
            &&& s2.programs[program_id].distributed == s.programs[program_id].distributed + amount
            &&& s2.programs[program_id].total_budget == s.programs[program_id].total_budget
            &&& s2.user_rewards[recipient].total_earned == before.total_earned + amount
            &&& s2.user_rewards[recipient].pending == before.pending + amount
            &&& s2.user_rewards[recipient].total_claimed == before.total_claimed
            &&& s2.user_rewards[recipient].last_earned == now
            &&& other_program != program_id ==> s2.programs[other_program] == s.programs[other_program]
            &&& other_user != recipient ==> s2.user_rewards[other_user] == s.user_rewards[other_user]
        }),
{
}

/// A new program takes the id after the last, is active with nothing
/// distributed, has the given budget, and lasts the given number of ledgers
/// from now.
pub proof fn lemma_new_program(
    s: RewardsDistributorState,
    name: String,
    budget: i128,
    reward_per_unit: i128,
    sequence: u32,
    duration: u32,
)
    requires
        s.program_counter < u32::MAX,
        sequence + duration <= u32::MAX,
    ensures
        ({
            let s2 = s.after_create(name, budget, reward_per_unit, sequence, duration);
            let id = s.program_counter + 1;
            let p = s2.programs[id as u32];
            &&& s2.program_counter == id
            &&& p.program_id == id && p.total_budget == budget && p.distributed == 0 && p.is_active
            &&& p.start_ledger == sequence && p.end_ledger == sequence + duration
        }),
{
}

} // verus!
