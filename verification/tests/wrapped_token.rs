use pulsartrack::common::{Auth, Error, Ledger};
use pulsartrack::wrapped_token::WrappedTokenContract;

fn ok<T>(r: Result<T, Error>) -> T {
    match r {
        Ok(v) => v,
        Err(e) => panic!("{}", e.message()),
    }
}

fn ledger() -> Ledger {
    Ledger { timestamp: 5, sequence: 1 }
}

const ADMIN: u64 = 1;
const RELAYER: u64 = 2;
const USER: u64 = 3;
const STELLAR_TOKEN: u64 = 4;

fn s(v: &str) -> String {
    v.to_string()
}

fn setup() -> WrappedTokenContract {
    let mut c = WrappedTokenContract::new();
    ok(c.initialize(&Auth::all(), ADMIN, RELAYER));
    c
}

fn register(c: &mut WrappedTokenContract) {
    ok(c.register_wrapped_token(
        &Auth::all(),
        ADMIN,
        s("wETH"),
        s("Wrapped Ether"),
        8,
        s("ethereum"),
        s("0xAddr"),
        STELLAR_TOKEN,
    ));
}

#[test]
fn wrapped_token_test_initialize() {
    setup();
}

#[test]
fn wrapped_token_test_initialize_twice() {
    let mut c = WrappedTokenContract::new();
    ok(c.initialize(&Auth::all(), ADMIN, RELAYER));
    assert_eq!(c.initialize(&Auth::all(), ADMIN, RELAYER), Err(Error::AlreadyInitialized));
}

#[test]
fn wrapped_token_test_initialize_non_admin_fails() {
    let mut c = WrappedTokenContract::new();
    assert_eq!(c.initialize(&Auth::none(), ADMIN, RELAYER), Err(Error::AuthRequired));
}

#[test]
fn test_register_wrapped_token() {
    let mut c = setup();
    register(&mut c);
    let token = c.get_wrapped_token("wETH").unwrap();
    assert_eq!(token.decimals, 8);
}

#[test]
fn test_mint_wrapped() {
    let mut c = setup();
    register(&mut c);
    ok(c.mint_wrapped(&Auth::all(), &ledger(), RELAYER, s("wETH"), USER, 1_000_000, s("0xTxHash")));
    assert_eq!(c.get_user_balance("wETH", USER), 1_000_000);
}

#[test]
fn test_burn_wrapped() {
    let mut c = setup();
    register(&mut c);
    ok(c.mint_wrapped(&Auth::all(), &ledger(), RELAYER, s("wETH"), USER, 1_000_000, s("0xTxHash")));
    ok(c.burn_wrapped(&Auth::all(), USER, s("wETH"), 400_000, s("0xTargetAddr")));
    assert_eq!(c.get_user_balance("wETH", USER), 600_000);
}

#[test]
fn test_get_wrapped_token_nonexistent() {
    let c = setup();
    assert!(c.get_wrapped_token("NOPE").is_none());
}

#[test]
fn test_get_user_balance_zero() {
    let c = setup();
    assert_eq!(c.get_user_balance("wETH", 99), 0);
}

#[test]
fn wrapped_mint_burn_round_trip_and_totals() {
    let mut c = setup();
    register(&mut c);
    let id1 = ok(c.mint_wrapped(&Auth::all(), &ledger(), RELAYER, s("wETH"), USER, 300, s("tx1")));
    let id2 = ok(c.mint_wrapped(&Auth::all(), &ledger(), RELAYER, s("wETH"), USER, 200, s("tx2")));
    assert_eq!((id1, id2), (1, 2));
    assert_eq!(c.get_wrapped_token("wETH").unwrap().total_wrapped, 500);
    ok(c.burn_wrapped(&Auth::all(), USER, s("wETH"), 500, s("dest")));
    assert_eq!(c.get_user_balance("wETH", USER), 0);
    assert_eq!(c.get_wrapped_token("wETH").unwrap().total_wrapped, 0);
}

#[test]
fn wrapped_refusals() {
    let mut c = setup();
    assert_eq!(
        c.mint_wrapped(&Auth::all(), &ledger(), RELAYER, s("wETH"), USER, 1, s("tx")),
        Err(Error::TokenNotRegistered)
    );
    register(&mut c);
    assert_eq!(
        c.mint_wrapped(&Auth::all(), &ledger(), 77, s("wETH"), USER, 1, s("tx")),
        Err(Error::UnauthorizedRelayer)
    );
    assert_eq!(c.burn_wrapped(&Auth::all(), USER, s("wETH"), 1, s("d")), Err(Error::InsufficientBalance));
    assert_eq!(
        c.register_wrapped_token(&Auth::all(), 9, s("x"), s("x"), 1, s("c"), s("a"), 1),
        Err(Error::Unauthorized)
    );
}

#[test]
fn wrapped_total_matches_holders() {
    let mut c = setup();
    register(&mut c);
    let other: u64 = 9;
    ok(c.mint_wrapped(&Auth::all(), &ledger(), RELAYER, s("wETH"), USER, 700, s("tx1")));
    ok(c.mint_wrapped(&Auth::all(), &ledger(), RELAYER, s("wETH"), other, 300, s("tx2")));
    ok(c.burn_wrapped(&Auth::all(), other, s("wETH"), 100, s("dest")));
    let held = c.get_user_balance("wETH", USER) + c.get_user_balance("wETH", other);
    assert_eq!(held, 900);
    assert_eq!(c.get_wrapped_token("wETH").unwrap().total_wrapped, held);
    assert!(c.get_user_balance("wETH", USER) >= 0 && c.get_user_balance("wETH", other) >= 0);
    assert_eq!(c.burn_wrapped(&Auth::all(), other, s("wETH"), 201, s("dest")), Err(Error::InsufficientBalance));
}
