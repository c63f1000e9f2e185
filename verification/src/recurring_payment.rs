//! Recurring payments: a payer sets up a payment of a fixed amount every
//! interval, which its payer, its recipient or the administrator may execute
//! once each interval, up to an optional number of payments.
use vstd::prelude::*;
use std::collections::BTreeMap;
use crate::admin::{AdminSlot, accept_admin_error, propose_admin_error};
use crate::common::{Auth, Error, Ledger, Party, Transfer};

verus! {

/// The states of a recurring payment.
#[derive(Clone, Copy, PartialEq, Eq, Structural, Debug)]
pub enum RecurringStatus {
    Active,
    Paused,
    Cancelled,
    Failed,
}

/// A recurring payment.
#[derive(Clone, Copy, PartialEq, Eq, Structural, Debug)]
pub struct RecurringPayment {
    pub payment_id: u64,
    pub payer: u64,
    pub recipient: u64,
    pub token: u64,
    pub amount: i128,
    /// Seconds between payments.
    pub interval_secs: u64,
    pub max_payments: Option<u32>,
    pub total_payments: u32,
    pub status: RecurringStatus,
    pub created_at: u64,
    pub last_payment: u64,
    pub next_payment: u64,
}

/// The contract's storage, as values.
pub struct RecurringPaymentState {
    pub admin: AdminSlot,
    pub payment_counter: u64,
    pub payments: Map<u64, RecurringPayment>,
}

impl RecurringPaymentState {
    /// What every reachable state satisfies: every payment is filed under
    /// its id, and a payment with a maximum has been made at most that many
    /// times.
    pub open spec fn wf(self) -> bool {
        forall|id: u64| #[trigger] self.payments.contains_key(id) ==> {
            &&& self.payments[id].payment_id == id
            &&& self.payments[id].max_payments is Some ==> self.payments[id].total_payments
                <= self.payments[id].max_payments.unwrap()
        }
    }

    pub open spec fn execute_error(self, auth: Auth, now: u64, caller: u64, payment_id: u64) -> Option<Error> {
        let p = self.payments[payment_id];
        if !auth.authorizes(caller) {
            Some(Error::AuthRequired)
        } else if !self.payments.contains_key(payment_id) {
            Some(Error::PaymentNotFound)
        } else if caller != p.payer && caller != p.recipient && self.admin.admin != Some(caller) {
            Some(Error::Unauthorized)
        } else if p.status != RecurringStatus::Active {
            Some(Error::PaymentNotActive)
        } else if now < p.next_payment {
            Some(Error::TooEarly)
        } else if p.max_payments is Some && p.total_payments >= p.max_payments.unwrap() {
            Some(Error::MaxPaymentsReached)
        } else if p.total_payments == u32::MAX || now + p.interval_secs > u64::MAX {
            Some(Error::Overflow)
        } else {
            None
        }
    }

    /// Whether `payer` may change payment `payment_id`: it exists and `payer` pays it.
    pub open spec fn payer_error(self, auth: Auth, payer: u64, payment_id: u64) -> Option<Error> {
        if !auth.authorizes(payer) {
            Some(Error::AuthRequired)
        } else if !self.payments.contains_key(payment_id) {
            Some(Error::PaymentNotFound)
        } else if self.payments[payment_id].payer != payer {
            Some(Error::Unauthorized)
        } else {
            None
        }
    }
}

/// The recurring-payment contract.
pub struct RecurringPaymentContract {
    admin: AdminSlot,
    payment_counter: u64,
    payments: BTreeMap<u64, RecurringPayment>,
}

impl View for RecurringPaymentContract {
    type V = RecurringPaymentState;

    closed spec fn view(&self) -> RecurringPaymentState {
        RecurringPaymentState {
            admin: self.admin,
            payment_counter: self.payment_counter,
            payments: self.payments@,
        }
    }
}

impl RecurringPaymentContract {
    /// A contract with empty storage.
    pub fn new() -> (c: Self)
        ensures
            c@.wf(),
            c@ == (RecurringPaymentState {
                admin: AdminSlot { admin: None, pending: None },
                payment_counter: 0,
                payments: Map::empty(),
            }),
    {
        RecurringPaymentContract {
            admin: AdminSlot { admin: None, pending: None },
            payment_counter: 0,
            payments: BTreeMap::new(),
        }
    }

    /// Stores the administrator.
    pub fn initialize(&mut self, auth: &Auth, admin: u64) -> (r: Result<(), Error>)
        requires
            old(self)@.wf(),
        ensures
            final(self)@.wf(),
            r == crate::common::outcome(
                if old(self)@.admin.admin is Some {
                    Some(Error::AlreadyInitialized)
                } else if !auth.authorizes(admin) {
                    Some(Error::AuthRequired)
                } else {
                    None
                },
                (),
            ),
            r is Err ==> final(self)@ == old(self)@,
            r is Ok ==> final(self)@ == (RecurringPaymentState {
                admin: AdminSlot { admin: Some(admin), ..old(self)@.admin },
                payment_counter: 0,
                ..old(self)@
            }),
    {
        if self.admin.admin.is_some() {
            return Err(Error::AlreadyInitialized);
        }
        if !auth.check(admin) {
            return Err(Error::AuthRequired);
        }
        self.admin.admin = Some(admin);
        self.payment_counter = 0;
        Ok(())
    }

    /// Sets up an active payment of `amount` of `token` from the payer to the
    /// recipient every `interval_secs`, the first one interval from now, and
    /// returns its id, one more than the last.
    pub fn create_recurring(
        &mut self,
        auth: &Auth,
        ledger: &Ledger,
        payer: u64,
        recipient: u64,
        token: u64,
        amount: i128,
        interval_secs: u64,
        max_payments: Option<u32>,
    ) -> (r: Result<u64, Error>)
        requires
            old(self)@.wf(),
        ensures
            final(self)@.wf(),
            match (if !auth.authorizes(payer) {
                Some(Error::AuthRequired)
            } else if amount <= 0 {
                Some(Error::InvalidAmount)
            } else if interval_secs == 0 {
                Some(Error::InvalidInterval)
            } else if old(self)@.payment_counter == u64::MAX || ledger.timestamp + interval_secs > u64::MAX {
                Some(Error::Overflow)
            } else {
                None
            }) {
                Some(e) => r == Err::<u64, Error>(e) && final(self)@ == old(self)@,
                None => {
                    let id = (old(self)@.payment_counter + 1) as u64;
                    &&& r == Ok::<u64, Error>(id)
                    &&& final(self)@ == RecurringPaymentState {
                        payment_counter: id,
                        payments: old(self)@.payments.insert(
                            id,
                            RecurringPayment {
                                payment_id: id,
                                payer,
                                recipient,
                                token,
                                amount,
                                interval_secs,
                                max_payments,
                                total_payments: 0,
                                status: RecurringStatus::Active,
                                created_at: ledger.timestamp,
                                last_payment: ledger.timestamp,
                                next_payment: (ledger.timestamp + interval_secs) as u64,
                            },
                        ),
                        ..old(self)@
                    }
                },
            },
    {
        if !auth.check(payer) {
            return Err(Error::AuthRequired);
        }
        if amount <= 0 {
            return Err(Error::InvalidAmount);
        }
        if interval_secs == 0 {
            return Err(Error::InvalidInterval);
        }
        if self.payment_counter == u64::MAX {
            return Err(Error::Overflow);
        }
        let now = ledger.timestamp;
        let next = match now.checked_add(interval_secs) {
            Some(x) => x,
            None => {
                return Err(Error::Overflow);
            },
        };
        let payment_id = self.payment_counter + 1;
        let recurring = RecurringPayment {
            payment_id,
            payer,
            recipient,
            token,
            amount,
            interval_secs,
            max_payments,
            total_payments: 0,
            status: RecurringStatus::Active,
            created_at: now,
            last_payment: now,
            next_payment: next,
        };
        self.payments.insert(payment_id, recurring);
        self.payment_counter = payment_id;
        Ok(payment_id)
    }

    /// Executes a due payment of an active recurring payment, at the request
    /// of its payer, its recipient or the administrator, unless it has
    /// reached its maximum number of payments; the next one falls due one
    /// interval from now.
    pub fn execute_payment(&mut self, auth: &Auth, ledger: &Ledger, caller: u64, payment_id: u64) -> (r: Result<
        Vec<Transfer>,
        Error,
    >)
        requires
            old(self)@.wf(),
        ensures
            final(self)@.wf(),
            match old(self)@.execute_error(*auth, ledger.timestamp, caller, payment_id) {
                Some(e) => r == Err::<Vec<Transfer>, Error>(e) && final(self)@ == old(self)@,
                None => {
                    let p = old(self)@.payments[payment_id];
                    &&& r matches Ok(t) && t@ == seq![
                        Transfer {
                            token: p.token,
                            from: Party::Account(p.payer),
                            to: Party::Account(p.recipient),
                            amount: p.amount,
                        },
                    ]
                    &&& final(self)@ == RecurringPaymentState {
                        payments: old(self)@.payments.insert(
                            payment_id,
                            RecurringPayment {
                                total_payments: (p.total_payments + 1) as u32,
                                last_payment: ledger.timestamp,
                                next_payment: (ledger.timestamp + p.interval_secs) as u64,
                                ..p
                            },
                        ),
                        ..old(self)@
                    }
                },
            },
    {
        if !auth.check(caller) {
            return Err(Error::AuthRequired);
        }
        let mut recurring = match self.payments.get(&payment_id) {
            Some(p) => *p,
            None => {
                return Err(Error::PaymentNotFound);
            },
        };
        let is_admin = match self.admin.admin {
            Some(a) => a == caller,
            None => false,
        };
        if caller != recurring.payer && caller != recurring.recipient && !is_admin {
            return Err(Error::Unauthorized);
        }
        if recurring.status != RecurringStatus::Active {
            return Err(Error::PaymentNotActive);
        }
        let now = ledger.timestamp;
        if now < recurring.next_payment {
            return Err(Error::TooEarly);
        }
        match recurring.max_payments {
            Some(max) => {
                if recurring.total_payments >= max {
                    return Err(Error::MaxPaymentsReached);
                }
            },
            None => {},
        }
        if recurring.total_payments == u32::MAX {
            return Err(Error::Overflow);
        }
        let next = match now.checked_add(recurring.interval_secs) {
            Some(x) => x,
            None => {
                return Err(Error::Overflow);
            },
        };
        let mut transfers: Vec<Transfer> = Vec::new();
        transfers.push(
            Transfer {
                token: recurring.token,
                from: Party::Account(recurring.payer),
                to: Party::Account(recurring.recipient),
                amount: recurring.amount,
            },
        );
        recurring.total_payments = recurring.total_payments + 1;
        recurring.last_payment = now;
        recurring.next_payment = next;
        self.payments.insert(payment_id, recurring);
        Ok(transfers)
    }

    /// Pauses a payment; only its payer may.
    pub fn pause_payment(&mut self, auth: &Auth, payer: u64, payment_id: u64) -> (r: Result<(), Error>)
        requires
            old(self)@.wf(),
        ensures
            final(self)@.wf(),
            r == crate::common::outcome(old(self)@.payer_error(*auth, payer, payment_id), ()),
            r is Err ==> final(self)@ == old(self)@,
            r is Ok ==> final(self)@ == (RecurringPaymentState {
                payments: old(self)@.payments.insert(
                    payment_id,
                    RecurringPayment { status: RecurringStatus::Paused, ..old(self)@.payments[payment_id] },
                ),
                ..old(self)@
            }),
    {
        let mut recurring = match self.payer_payment(auth, payer, payment_id) {
            Ok(p) => p,
            Err(e) => {
                return Err(e);
            },
        };
        recurring.status = RecurringStatus::Paused;
        self.payments.insert(payment_id, recurring);
        Ok(())
    }

    /// Makes a payment active again, the next one due one interval from now;
    /// only its payer may.
    pub fn resume_payment(&mut self, auth: &Auth, ledger: &Ledger, payer: u64, payment_id: u64) -> (r: Result<
        (),
        Error,
    >)
        requires
            old(self)@.wf(),
        ensures
            final(self)@.wf(),
            r == crate::common::outcome(
                match old(self)@.payer_error(*auth, payer, payment_id) {
                    Some(e) => Some(e),
                    None => if ledger.timestamp + old(self)@.payments[payment_id].interval_secs > u64::MAX {
                        Some(Error::Overflow)
                    } else {
                        None
                    },
                },
                (),
            ),
            r is Err ==> final(self)@ == old(self)@,
            r is Ok ==> final(self)@ == (RecurringPaymentState {
                payments: old(self)@.payments.insert(
                    payment_id,
                    RecurringPayment {
                        status: RecurringStatus::Active,
                        next_payment: (ledger.timestamp + old(self)@.payments[payment_id].interval_secs) as u64,
                        ..old(self)@.payments[payment_id]
                    },
                ),
                ..old(self)@
            }),
    {
        let mut recurring = match self.payer_payment(auth, payer, payment_id) {
            Ok(p) => p,
            Err(e) => {
                return Err(e);
            },
        };
        let next = match ledger.timestamp.checked_add(recurring.interval_secs) {
            Some(x) => x,
            None => {
                return Err(Error::Overflow);
            },
        };
        recurring.status = RecurringStatus::Active;
        recurring.next_payment = next;
        self.payments.insert(payment_id, recurring);
        Ok(())
    }

    /// Cancels a payment; only its payer may.
    pub fn cancel_payment(&mut self, auth: &Auth, payer: u64, payment_id: u64) -> (r: Result<(), Error>)
        requires
            old(self)@.wf(),
        ensures
            final(self)@.wf(),
            r == crate::common::outcome(old(self)@.payer_error(*auth, payer, payment_id), ()),
            r is Err ==> final(self)@ == old(self)@,
            r is Ok ==> final(self)@ == (RecurringPaymentState {
                payments: old(self)@.payments.insert(
                    payment_id,
                    RecurringPayment { status: RecurringStatus::Cancelled, ..old(self)@.payments[payment_id] },
                ),
                ..old(self)@
            }),
    {
        let mut recurring = match self.payer_payment(auth, payer, payment_id) {
            Ok(p) => p,
            Err(e) => {
                return Err(e);
            },
        };
        recurring.status = RecurringStatus::Cancelled;
        self.payments.insert(payment_id, recurring);
        Ok(())
    }

    fn payer_payment(&self, auth: &Auth, payer: u64, payment_id: u64) -> (r: Result<RecurringPayment, Error>)
        ensures
            match self@.payer_error(*auth, payer, payment_id) {
                Some(e) => r == Err::<RecurringPayment, Error>(e),
                None => r == Ok::<RecurringPayment, Error>(self@.payments[payment_id]),
            },
    {
        if !auth.check(payer) {
            return Err(Error::AuthRequired);
        }
        let recurring = match self.payments.get(&payment_id) {
            Some(p) => *p,
            None => {
                return Err(Error::PaymentNotFound);
            },
        };
        if recurring.payer != payer {
            return Err(Error::Unauthorized);
        }
        Ok(recurring)
    }

    /// A payment, if it exists.
    pub fn get_payment(&self, payment_id: u64) -> (r: Option<RecurringPayment>)
        ensures
            r == (if self@.payments.contains_key(payment_id) {
                Some(self@.payments[payment_id])
            } else {
                None::<RecurringPayment>
            }),
    {
        match self.payments.get(&payment_id) {
            Some(p) => Some(*p),
            None => None,
        }
    }

    /// Proposes a successor to the administrator; only the administrator may.
    pub fn propose_admin(&mut self, auth: &Auth, current_admin: u64, new_admin: u64) -> (r: Result<(), Error>)
        requires
            old(self)@.wf(),
        ensures
            final(self)@.wf(),
            r == crate::common::outcome(propose_admin_error(old(self)@.admin, *auth, current_admin), ()),
            r is Err ==> final(self)@ == old(self)@,
            r is Ok ==> final(self)@ == (RecurringPaymentState {
                admin: AdminSlot { pending: Some(new_admin), ..old(self)@.admin },
                ..old(self)@
            }),
    {
        crate::admin::propose_admin(&mut self.admin, auth, current_admin, new_admin)
    }

    /// Makes the proposed successor the administrator, at its own request.
    pub fn accept_admin(&mut self, auth: &Auth, new_admin: u64) -> (r: Result<(), Error>)
        requires
            old(self)@.wf(),
        ensures
            final(self)@.wf(),
            r == crate::common::outcome(accept_admin_error(old(self)@.admin, *auth, new_admin), ()),
            r is Err ==> final(self)@ == old(self)@,
            r is Ok ==> final(self)@ == (RecurringPaymentState {
                admin: AdminSlot { admin: Some(new_admin), pending: None },
                ..old(self)@
            }),
    {
        crate::admin::accept_admin(&mut self.admin, auth, new_admin)
    }
}

/// A payment with a maximum is never executed more times than that: an
/// execution that goes through leaves the count within the maximum.
pub proof fn lemma_payments_within_max(s: RecurringPaymentState, auth: Auth, now: u64, caller: u64, payment_id: u64)
    requires
        s.execute_error(auth, now, caller, payment_id) is None,
        s.payments[payment_id].max_payments is Some,
    ensures
        s.payments[payment_id].total_payments + 1 <= s.payments[payment_id].max_payments.unwrap(),
{
}

/// Only the payer, the recipient or the administrator can execute a payment.
pub proof fn lemma_execute_by_parties(s: RecurringPaymentState, auth: Auth, now: u64, caller: u64, payment_id: u64)
    requires
        s.execute_error(auth, now, caller, payment_id) is None,
    ensures
        caller == s.payments[payment_id].payer || caller == s.payments[payment_id].recipient || s.admin.admin
            == Some(caller),
{
}

/// In every reachable state, a payment with a maximum has been made at most
/// that many times.
pub proof fn lemma_total_within_max(s: RecurringPaymentState, payment_id: u64)
    requires
        s.wf(),
        s.payments.contains_key(payment_id),
        s.payments[payment_id].max_payments is Some,
    ensures
        s.payments[payment_id].total_payments <= s.payments[payment_id].max_payments.unwrap(),
{
}

} // verus!
