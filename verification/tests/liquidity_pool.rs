use pulsartrack::common::{Auth, Error, Ledger, Party, Transfer};
use pulsartrack::liquidity_pool::LiquidityPoolContract;

fn ok<T>(r: Result<T, Error>) -> T {
    match r {
        Ok(v) => v,
        Err(e) => panic!("{}", e.message()),
    }
}

fn ledger() -> Ledger {
    Ledger { timestamp: 0, sequence: 0 }
}

const ADMIN: u64 = 1;
const TOKEN: u64 = 2;
const PROVIDER: u64 = 3;
const BORROWER: u64 = 4;

fn setup() -> LiquidityPoolContract {
    let mut c = LiquidityPoolContract::new();
    ok(c.initialize(&Auth::all(), &ledger(), ADMIN, TOKEN));
    c
}

#[test]
fn liquidity_pool_test_initialize() {
    setup();
}

#[test]
fn liquidity_pool_test_initialize_twice() {
    let mut c = setup();
    assert_eq!(c.initialize(&Auth::all(), &ledger(), ADMIN, TOKEN), Err(Error::AlreadyInitialized));
}

#[test]
fn test_deposit() {
    let mut c = setup();
    let (shares, _) = ok(c.deposit(&Auth::all(), &ledger(), PROVIDER, 100_000));
    assert!(shares > 0);
    let pos = c.get_provider_position(PROVIDER).unwrap();
    assert_eq!(pos.shares, shares);
    let pool = ok(c.get_pool_state());
    assert_eq!(pool.total_liquidity, 100_000);
}

#[test]
fn test_withdraw() {
    let mut c = setup();
    let (shares, _) = ok(c.deposit(&Auth::all(), &ledger(), PROVIDER, 100_000));
    let (withdrawn, _) = ok(c.withdraw(&Auth::all(), &ledger(), PROVIDER, shares));
    assert_eq!(withdrawn, 100_000);
    let pool = ok(c.get_pool_state());
    assert_eq!(pool.total_liquidity, 0);
}

#[test]
fn test_borrow() {
    let mut c = setup();
    ok(c.deposit(&Auth::all(), &ledger(), PROVIDER, 500_000));
    ok(c.borrow(&Auth::all(), &ledger(), BORROWER, 1, 100_000, 86_400));
    let b = c.get_borrow(1).unwrap();
    assert_eq!(b.borrowed, 100_000);
    let pool = ok(c.get_pool_state());
    assert_eq!(pool.total_borrowed, 100_000);
}

#[test]
fn test_repay() {
    let mut c = setup();
    ok(c.deposit(&Auth::all(), &ledger(), PROVIDER, 500_000));
    ok(c.borrow(&Auth::all(), &ledger(), BORROWER, 1, 100_000, 86_400));
    ok(c.repay(&Auth::all(), &ledger(), BORROWER, 1, 100_000));
    let pool = ok(c.get_pool_state());
    assert_eq!(pool.total_borrowed, 0);
}

#[test]
fn test_get_provider_position_nonexistent() {
    let c = setup();
    assert!(c.get_provider_position(77).is_none());
}

#[test]
fn test_get_borrow_nonexistent() {
    let c = setup();
    assert!(c.get_borrow(999).is_none());
}

#[test]
fn pool_shares_are_proportional() {
    let mut c = setup();
    let (a, t) = ok(c.deposit(&Auth::all(), &ledger(), PROVIDER, 1_000));
    assert_eq!(a, 1_000);
    assert_eq!(t, vec![Transfer { token: TOKEN, from: Party::Account(PROVIDER), to: Party::Contract, amount: 1_000 }]);
    let (b, _) = ok(c.deposit(&Auth::all(), &ledger(), 9, 500));
    assert_eq!(b, 500);
    assert_eq!(c.get_provider_position(9).unwrap().shares, 500);
}

#[test]
fn pool_utilization_and_limits() {
    let mut c = setup();
    ok(c.deposit(&Auth::all(), &ledger(), PROVIDER, 1_000));
    ok(c.borrow(&Auth::all(), &Ledger { timestamp: 10, sequence: 0 }, BORROWER, 1, 250, 100));
    let pool = ok(c.get_pool_state());
    assert_eq!(pool.utilization_rate, 25);
    assert_eq!(c.get_borrow(1).unwrap().due_at, 110);
    assert_eq!(c.borrow(&Auth::all(), &ledger(), BORROWER, 1, 10, 100), Err(Error::AlreadyHasBorrow));
    assert_eq!(c.borrow(&Auth::all(), &ledger(), BORROWER, 2, 751, 100), Err(Error::InsufficientLiquidity));
    // Only the unlent 750 can be withdrawn.
    assert_eq!(c.withdraw(&Auth::all(), &ledger(), PROVIDER, 1_000), Err(Error::InsufficientLiquidity));
    let (out, _) = ok(c.withdraw(&Auth::all(), &ledger(), PROVIDER, 750));
    assert_eq!(out, 750);
    assert_eq!(c.withdraw(&Auth::all(), &ledger(), PROVIDER, 251), Err(Error::InsufficientShares));
}

#[test]
fn pool_repay_checks() {
    let mut c = setup();
    ok(c.deposit(&Auth::all(), &ledger(), PROVIDER, 1_000));
    ok(c.borrow(&Auth::all(), &ledger(), BORROWER, 1, 400, 100));
    assert_eq!(c.repay(&Auth::all(), &ledger(), 9, 1, 400), Err(Error::Unauthorized));
    assert_eq!(c.repay(&Auth::all(), &ledger(), BORROWER, 2, 400), Err(Error::BorrowNotFound));
    // Repaying more than the loan: the borrowed total falls by the loan, the liquidity grows by the payment.
    ok(c.repay(&Auth::all(), &ledger(), BORROWER, 1, 500));
    let pool = ok(c.get_pool_state());
    assert_eq!(pool.total_borrowed, 0);
    assert_eq!(pool.total_liquidity, 1_500);
    assert!(c.get_borrow(1).is_none());
}

#[test]
fn pool_refusals() {
    let mut c = LiquidityPoolContract::new();
    assert_eq!(c.get_pool_state(), Err(Error::NotInitialized));
    assert_eq!(c.deposit(&Auth::all(), &ledger(), PROVIDER, 10), Err(Error::NotInitialized));
    let mut c = setup();
    assert_eq!(c.deposit(&Auth::all(), &ledger(), PROVIDER, 0), Err(Error::InvalidAmount));
    assert_eq!(c.withdraw(&Auth::all(), &ledger(), PROVIDER, 1), Err(Error::NoPosition));
    assert_eq!(c.deposit(&Auth::none(), &ledger(), PROVIDER, 10), Err(Error::AuthRequired));
}

#[test]
fn liquidity_shares_are_split_by_providers() {
    let mut c = setup();
    let other: u64 = 9;
    let (a, _) = ok(c.deposit(&Auth::all(), &ledger(), PROVIDER, 1_000));
    let (b, _) = ok(c.deposit(&Auth::all(), &ledger(), other, 500));
    assert_eq!((a, b), (1_000, 500));
    // The pool's 1_500 shares are the two providers' shares together, so
    // the first provider's shares are worth two thirds of the liquidity.
    let (paid, _) = ok(c.withdraw(&Auth::all(), &ledger(), PROVIDER, 1_000));
    assert_eq!(paid, 1_000);
    let (paid, _) = ok(c.withdraw(&Auth::all(), &ledger(), other, 500));
    assert_eq!(paid, 500);
    assert_eq!(ok(c.get_pool_state()).total_liquidity, 0);
}

#[test]
fn liquidity_deposit_then_withdraw_never_gains() {
    let mut c = setup();
    let other: u64 = 9;
    ok(c.deposit(&Auth::all(), &ledger(), PROVIDER, 100));
    ok(c.borrow(&Auth::all(), &ledger(), BORROWER, 1, 50, 1_000));
    ok(c.repay(&Auth::all(), &ledger(), BORROWER, 1, 60));
    assert_eq!(ok(c.get_pool_state()).total_liquidity, 160);
    let (bought, _) = ok(c.deposit(&Auth::all(), &ledger(), other, 7));
    assert_eq!(bought, 4);
    let (paid, _) = ok(c.withdraw(&Auth::all(), &ledger(), other, bought));
    assert_eq!(paid, 6);
}
