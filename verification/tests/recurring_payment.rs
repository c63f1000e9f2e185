use pulsartrack::common::{Auth, Error, Ledger, Party, Transfer};
use pulsartrack::recurring_payment::{RecurringPaymentContract, RecurringStatus};

fn ok<T>(r: Result<T, Error>) -> T {
    match r {
        Ok(v) => v,
        Err(e) => panic!("{}", e.message()),
    }
}

fn at(timestamp: u64) -> Ledger {
    Ledger { timestamp, sequence: 0 }
}

const ADMIN: u64 = 1;
const PAYER: u64 = 2;
const PAYEE: u64 = 3;
const TOKEN: u64 = 4;
const STRANGER: u64 = 5;

fn setup() -> RecurringPaymentContract {
    let mut c = RecurringPaymentContract::new();
    ok(c.initialize(&Auth::all(), ADMIN));
    c
}

#[test]
fn recurring_payment_test_initialize() {
    setup();
}

#[test]
fn recurring_payment_test_initialize_twice() {
    let mut c = RecurringPaymentContract::new();
    ok(c.initialize(&Auth::all(), ADMIN));
    assert_eq!(c.initialize(&Auth::all(), ADMIN), Err(Error::AlreadyInitialized));
}

#[test]
fn test_create_recurring() {
    let mut c = setup();
    let id = ok(c.create_recurring(&Auth::all(), &at(0), PAYER, PAYEE, TOKEN, 1000, 86_400, Some(12)));
    assert_eq!(id, 1);
    let payment = c.get_payment(id).unwrap();
    assert!(matches!(payment.status, RecurringStatus::Active));
    assert_eq!(payment.amount, 1000);
}

#[test]
fn test_create_recurring_no_limit() {
    let mut c = setup();
    let id = ok(c.create_recurring(&Auth::all(), &at(0), PAYER, PAYEE, TOKEN, 1000, 86_400, None));
    assert_eq!(id, 1);
}

#[test]
fn test_pause_payment() {
    let mut c = setup();
    let id = ok(c.create_recurring(&Auth::all(), &at(0), PAYER, PAYEE, TOKEN, 1000, 86_400, None));
    ok(c.pause_payment(&Auth::all(), PAYER, id));
    let payment = c.get_payment(id).unwrap();
    assert!(matches!(payment.status, RecurringStatus::Paused));
}

#[test]
fn test_resume_payment() {
    let mut c = setup();
    let id = ok(c.create_recurring(&Auth::all(), &at(0), PAYER, PAYEE, TOKEN, 1000, 86_400, None));
    ok(c.pause_payment(&Auth::all(), PAYER, id));
    ok(c.resume_payment(&Auth::all(), &at(0), PAYER, id));
    let payment = c.get_payment(id).unwrap();
    assert!(matches!(payment.status, RecurringStatus::Active));
}

#[test]
fn test_cancel_payment() {
    let mut c = setup();
    let id = ok(c.create_recurring(&Auth::all(), &at(0), PAYER, PAYEE, TOKEN, 1000, 86_400, None));
    ok(c.cancel_payment(&Auth::all(), PAYER, id));
    let payment = c.get_payment(id).unwrap();
    assert!(matches!(payment.status, RecurringStatus::Cancelled));
}

#[test]
fn test_get_payment_nonexistent() {
    let c = setup();
    assert!(c.get_payment(999).is_none());
}

fn due_payment(c: &mut RecurringPaymentContract, max: Option<u32>) -> u64 {
    ok(c.create_recurring(&Auth::all(), &at(0), PAYER, PAYEE, TOKEN, 1000, 1, max))
}

#[test]
fn test_execute_payment_by_payer() {
    let mut c = setup();
    let id = due_payment(&mut c, None);
    ok(c.execute_payment(&Auth::all(), &at(2), PAYER, id));
    assert_eq!(c.get_payment(id).unwrap().total_payments, 1);
}

#[test]
fn test_execute_payment_by_recipient() {
    let mut c = setup();
    let id = due_payment(&mut c, None);
    ok(c.execute_payment(&Auth::all(), &at(2), PAYEE, id));
    assert_eq!(c.get_payment(id).unwrap().total_payments, 1);
}

#[test]
fn test_execute_payment_by_admin() {
    let mut c = setup();
    let id = due_payment(&mut c, None);
    ok(c.execute_payment(&Auth::all(), &at(2), ADMIN, id));
    assert_eq!(c.get_payment(id).unwrap().total_payments, 1);
}

#[test]
#[should_panic(expected = "unauthorized")]
fn test_execute_payment_by_stranger_fails() {
    let mut c = setup();
    let id = due_payment(&mut c, None);
    ok(c.execute_payment(&Auth::all(), &at(2), STRANGER, id));
}

#[test]
#[should_panic(expected = "too early")]
fn test_execute_payment_too_early() {
    let mut c = setup();
    let id = ok(c.create_recurring(&Auth::all(), &at(0), PAYER, PAYEE, TOKEN, 1000, 86_400, None));
    ok(c.execute_payment(&Auth::all(), &at(0), PAYER, id));
}

#[test]
#[should_panic(expected = "max payments reached")]
fn test_execute_payment_max_reached() {
    let mut c = setup();
    let id = due_payment(&mut c, Some(1));
    ok(c.execute_payment(&Auth::all(), &at(2), PAYER, id));
    ok(c.execute_payment(&Auth::all(), &at(4), PAYER, id));
}

#[test]
fn recurring_execute_moves_amount_and_reschedules() {
    let mut c = setup();
    let id = due_payment(&mut c, Some(3));
    let t = ok(c.execute_payment(&Auth::all(), &at(5), PAYEE, id));
    assert_eq!(
        t,
        vec![Transfer { token: TOKEN, from: Party::Account(PAYER), to: Party::Account(PAYEE), amount: 1000 }]
    );
    let p = c.get_payment(id).unwrap();
    assert_eq!(p.last_payment, 5);
    assert_eq!(p.next_payment, 6);
    assert_eq!(c.execute_payment(&Auth::all(), &at(5), PAYEE, id), Err(Error::TooEarly));
}

#[test]
fn recurring_refusals() {
    let mut c = setup();
    assert_eq!(
        c.create_recurring(&Auth::all(), &at(0), PAYER, PAYEE, TOKEN, 0, 1, None),
        Err(Error::InvalidAmount)
    );
    assert_eq!(
        c.create_recurring(&Auth::all(), &at(0), PAYER, PAYEE, TOKEN, 5, 0, None),
        Err(Error::InvalidInterval)
    );
    let id = due_payment(&mut c, None);
    assert_eq!(c.pause_payment(&Auth::all(), PAYEE, id), Err(Error::Unauthorized));
    assert_eq!(c.cancel_payment(&Auth::all(), PAYER, 77), Err(Error::PaymentNotFound));
    ok(c.pause_payment(&Auth::all(), PAYER, id));
    assert_eq!(c.execute_payment(&Auth::all(), &at(9), PAYER, id), Err(Error::PaymentNotActive));
    assert_eq!(c.execute_payment(&Auth::none(), &at(9), PAYER, id), Err(Error::AuthRequired));
}
