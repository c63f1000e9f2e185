use pulsartrack::common::{Auth, Error, Ledger, Party, Transfer};
use pulsartrack::token_bridge::{BridgeStatus, TokenBridgeContract};

fn ok<T>(r: Result<T, Error>) -> T {
    match r {
        Ok(v) => v,
        Err(e) => panic!("{}", e.message()),
    }
}

fn at(timestamp: u64) -> Ledger {
    Ledger { timestamp, sequence: 0 }
}

const ADMIN: u64 = 1;
const RELAYER: u64 = 2;
const SENDER: u64 = 3;
const TOKEN: u64 = 4;

fn setup() -> TokenBridgeContract {
    let mut c = TokenBridgeContract::new();
    ok(c.initialize(&Auth::all(), ADMIN, RELAYER));
    ok(c.add_supported_chain(&Auth::all(), ADMIN, "ethereum".to_string(), 1_000_000));
    c
}

fn deposit(c: &mut TokenBridgeContract, amount: i128) -> u64 {
    let (id, _) = ok(c.deposit_for_bridge(&Auth::all(), &at(3), SENDER, TOKEN, amount, "ethereum".to_string(), "0xabc".to_string()));
    id
}

#[test]
fn bridge_deposit_locks_amount_less_fee() {
    let mut c = setup();
    let (id, t) = ok(c.deposit_for_bridge(&Auth::all(), &at(3), SENDER, TOKEN, 10_000, "ethereum".to_string(), "0xabc".to_string()));
    assert_eq!(id, 1);
    assert_eq!(t, vec![Transfer { token: TOKEN, from: Party::Account(SENDER), to: Party::Contract, amount: 10_000 }]);
    let d = c.get_deposit(id).unwrap();
    assert_eq!(d.bridge_fee, 50);
    assert_eq!(d.amount, 9_950);
    assert_eq!(d.status, BridgeStatus::Pending);
    assert_eq!(d.created_at, 3);
    // A fee that rounds to zero.
    let id2 = deposit(&mut c, 199);
    assert_eq!(c.get_deposit(id2).unwrap().bridge_fee, 0);
}

#[test]
fn bridge_deposit_refusals() {
    let mut c = setup();
    assert_eq!(
        c.deposit_for_bridge(&Auth::all(), &at(0), SENDER, TOKEN, 10, "solana".to_string(), "x".to_string()),
        Err(Error::ChainNotSupported)
    );
    assert_eq!(
        c.deposit_for_bridge(&Auth::all(), &at(0), SENDER, TOKEN, 0, "ethereum".to_string(), "x".to_string()),
        Err(Error::InvalidAmount)
    );
    assert_eq!(c.add_supported_chain(&Auth::all(), SENDER, "x".to_string(), 1), Err(Error::Unauthorized));
    assert!(c.get_deposit(1).is_none());
}

#[test]
fn bridge_confirm() {
    let mut c = setup();
    let id = deposit(&mut c, 10_000);
    assert_eq!(c.confirm_bridge(&Auth::all(), &at(9), SENDER, id, [7u8; 32]), Err(Error::UnauthorizedRelayer));
    ok(c.confirm_bridge(&Auth::all(), &at(9), RELAYER, id, [7u8; 32]));
    let d = c.get_deposit(id).unwrap();
    assert_eq!(d.status, BridgeStatus::Completed);
    assert_eq!(d.completed_at, Some(9));
    assert_eq!(d.tx_hash, Some([7u8; 32]));
    assert_eq!(c.confirm_bridge(&Auth::all(), &at(9), RELAYER, id, [7u8; 32]), Err(Error::NotPending));
    assert_eq!(c.refund_deposit(&Auth::all(), ADMIN, id), Err(Error::CannotRefund));
    assert_eq!(c.confirm_bridge(&Auth::all(), &at(9), RELAYER, 99, [7u8; 32]), Err(Error::DepositNotFound));
}

#[test]
fn bridge_refund_returns_whole_deposit() {
    let mut c = setup();
    let id = deposit(&mut c, 10_000);
    let t = ok(c.refund_deposit(&Auth::all(), ADMIN, id));
    assert_eq!(t, vec![Transfer { token: TOKEN, from: Party::Contract, to: Party::Account(SENDER), amount: 10_000 }]);
    assert_eq!(c.get_deposit(id).unwrap().status, BridgeStatus::Refunded);
    assert_eq!(c.refund_deposit(&Auth::all(), ADMIN, id), Err(Error::CannotRefund));
}
