use pulsartrack::common::{Auth, Error, Ledger, Party, Transfer};
use pulsartrack::rewards_distributor::RewardsDistributorContract;

fn ok<T>(r: Result<T, Error>) -> T {
    match r {
        Ok(v) => v,
        Err(e) => panic!("{}", e.message()),
    }
}

fn at(sequence: u32) -> Ledger {
    Ledger { timestamp: 1000 + sequence as u64, sequence }
}

const ADMIN: u64 = 1;
const TOKEN: u64 = 2;
const USER: u64 = 3;

fn setup() -> (RewardsDistributorContract, u32) {
    let mut c = RewardsDistributorContract::new();
    ok(c.initialize(&Auth::all(), ADMIN, TOKEN));
    let id = ok(c.create_program(&Auth::all(), &at(10), ADMIN, "launch".to_string(), 1_000, 5, 100));
    (c, id)
}

#[test]
fn rewards_create_program() {
    let (mut c, id) = setup();
    assert_eq!(id, 1);
    let p = c.get_program(id).unwrap();
    assert_eq!(p.total_budget, 1_000);
    assert_eq!(p.end_ledger, 110);
    assert!(p.is_active);
    assert_eq!(
        c.create_program(&Auth::all(), &at(10), USER, "x".to_string(), 1, 1, 1),
        Err(Error::Unauthorized)
    );
    assert_eq!(ok(c.create_program(&Auth::all(), &at(10), ADMIN, "y".to_string(), 1, 1, 1)), 2);
}

#[test]
fn rewards_distribute_within_budget() {
    let (mut c, id) = setup();
    ok(c.distribute_rewards(&Auth::all(), &at(20), ADMIN, USER, 600, id));
    ok(c.distribute_rewards(&Auth::all(), &at(21), ADMIN, USER, 400, id));
    assert_eq!(c.get_program(id).unwrap().distributed, 1_000);
    assert_eq!(c.distribute_rewards(&Auth::all(), &at(22), ADMIN, USER, 1, id), Err(Error::ExceedsBudget));
    let u = c.get_user_rewards(USER).unwrap();
    assert_eq!(u.total_earned, 1_000);
    assert_eq!(u.pending, 1_000);
    assert_eq!(u.last_earned, 1021);
}

#[test]
fn rewards_distribute_refusals() {
    let (mut c, id) = setup();
    assert_eq!(c.distribute_rewards(&Auth::all(), &at(20), ADMIN, USER, 1, 9), Err(Error::ProgramNotFound));
    assert_eq!(c.distribute_rewards(&Auth::all(), &at(111), ADMIN, USER, 1, id), Err(Error::ProgramEnded));
    assert_eq!(c.distribute_rewards(&Auth::all(), &at(20), USER, USER, 1, id), Err(Error::Unauthorized));
    assert!(c.get_user_rewards(USER).is_none());
}

#[test]
fn rewards_claim_moves_pending() {
    let (mut c, id) = setup();
    assert_eq!(c.claim_rewards(&Auth::all(), USER), Err(Error::NoRewards));
    ok(c.distribute_rewards(&Auth::all(), &at(20), ADMIN, USER, 250, id));
    let (amount, t) = ok(c.claim_rewards(&Auth::all(), USER));
    assert_eq!(amount, 250);
    assert_eq!(t, vec![Transfer { token: TOKEN, from: Party::Contract, to: Party::Account(USER), amount: 250 }]);
    let u = c.get_user_rewards(USER).unwrap();
    assert_eq!(u.pending, 0);
    assert_eq!(u.total_claimed, 250);
    assert_eq!(u.total_earned, 250);
    assert_eq!(c.claim_rewards(&Auth::all(), USER), Err(Error::NoPendingRewards));
}

#[test]
fn rewards_earned_equals_distributed() {
    let (mut c, p1) = setup();
    let p2 = ok(c.create_program(&Auth::all(), &at(10), ADMIN, "second".to_string(), 500, 1, 100));
    let other: u64 = 8;
    ok(c.distribute_rewards(&Auth::all(), &at(20), ADMIN, USER, 300, p1));
    ok(c.distribute_rewards(&Auth::all(), &at(20), ADMIN, other, 200, p1));
    ok(c.distribute_rewards(&Auth::all(), &at(20), ADMIN, USER, 50, p2));
    ok(c.claim_rewards(&Auth::all(), USER));
    let distributed = c.get_program(p1).unwrap().distributed + c.get_program(p2).unwrap().distributed;
    let earned = c.get_user_rewards(USER).unwrap().total_earned + c.get_user_rewards(other).unwrap().total_earned;
    assert_eq!(distributed, 550);
    assert_eq!(earned, distributed);
}
