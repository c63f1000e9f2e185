//! A bridge that locks tokens for transfer to other chains: a deposit is
//! locked less a bridge fee, then either confirmed by the relayer or
//! refunded in full by the administrator.
use vstd::prelude::*;
use std::collections::BTreeMap;
use vstd::hash_map::StringHashMap;
use crate::common::{Auth, Error, Ledger, Party, Transfer, div_trunc, fits_i128};

verus! {

/// The states of a deposit.
#[derive(Clone, Copy, PartialEq, Eq, Structural, Debug)]
pub enum BridgeStatus {
    Pending,
    Processing,
    Completed,
    Failed,
    Refunded,
}

/// Tokens locked for transfer to another chain.
#[derive(Clone, Debug)]
pub struct BridgeDeposit {
    pub deposit_id: u64,
    pub sender: u64,
    pub recipient_chain: String,
    /// Address on the target chain.
    pub recipient_address: String,
    pub token: u64,
    /// What the deposit carries across, after the fee.
    pub amount: i128,
    pub bridge_fee: i128,
    pub status: BridgeStatus,
    pub created_at: u64,
    pub completed_at: Option<u64>,
    pub tx_hash: Option<[u8; 32]>,
}

/// The fee on a deposit: `fee_bps` basis points of the amount, rounded toward zero.
pub open spec fn bridge_fee_of(amount: i128, fee_bps: u32) -> int {
    div_trunc(amount * fee_bps, 10_000)
}

/// The contract's storage, as values.
pub struct TokenBridgeState {
    pub admin: Option<u64>,
    pub relayer: Option<u64>,
    pub deposit_counter: u64,
    pub fee_bps: u32,
    /// Daily limits of the supported chains.
    pub supported_chains: Map<Seq<char>, i128>,
    pub deposits: Map<u64, BridgeDeposit>,
}

impl TokenBridgeState {
    pub open spec fn admin_error(self, auth: Auth, admin: u64) -> Option<Error> {
        if !auth.authorizes(admin) {
            Some(Error::AuthRequired)
        } else if self.admin is None {
            Some(Error::NotInitialized)
        } else if self.admin != Some(admin) {
            Some(Error::Unauthorized)
        } else {
            None
        }
    }

    pub open spec fn deposit_error(self, auth: Auth, sender: u64, amount: i128, chain: Seq<char>) -> Option<Error> {
        if !auth.authorizes(sender) {
            Some(Error::AuthRequired)
        } else if !self.supported_chains.contains_key(chain) {
            Some(Error::ChainNotSupported)
        } else if amount <= 0 {
            Some(Error::InvalidAmount)
        } else if !fits_i128(amount * self.fee_bps) || !fits_i128(amount - bridge_fee_of(amount, self.fee_bps))
            || self.deposit_counter == u64::MAX {
            Some(Error::Overflow)
        } else {
            None
        }
    }

    pub open spec fn confirm_error(self, auth: Auth, relayer: u64, deposit_id: u64) -> Option<Error> {
        if !auth.authorizes(relayer) {
            Some(Error::AuthRequired)
        } else if self.relayer is None {
            Some(Error::NotInitialized)
        } else if self.relayer != Some(relayer) {
            Some(Error::UnauthorizedRelayer)
        } else if !self.deposits.contains_key(deposit_id) {
            Some(Error::DepositNotFound)
        } else if self.deposits[deposit_id].status != BridgeStatus::Pending {
            Some(Error::NotPending)
        } else {
            None
        }
    }

    pub open spec fn refund_error(self, auth: Auth, admin: u64, deposit_id: u64) -> Option<Error> {
        let d = self.deposits[deposit_id];
        match self.admin_error(auth, admin) {
            Some(e) => Some(e),
            None => if !self.deposits.contains_key(deposit_id) {
                Some(Error::DepositNotFound)
            } else if d.status != BridgeStatus::Pending && d.status != BridgeStatus::Failed {
                Some(Error::CannotRefund)
            } else if !fits_i128(d.amount + d.bridge_fee) {
                Some(Error::Overflow)
            } else {
                None
            },
        }
    }
}

/// The token-bridge contract.
pub struct TokenBridgeContract {
    admin: Option<u64>,
    relayer: Option<u64>,
    deposit_counter: u64,
    fee_bps: u32,
    supported_chains: StringHashMap<i128>,
    deposits: BTreeMap<u64, BridgeDeposit>,
}

impl View for TokenBridgeContract {
    type V = TokenBridgeState;

    closed spec fn view(&self) -> TokenBridgeState {
        TokenBridgeState {
            admin: self.admin,
            relayer: self.relayer,
            deposit_counter: self.deposit_counter,
            fee_bps: self.fee_bps,
            supported_chains: self.supported_chains@,
            deposits: self.deposits@,
        }
    }
}

impl TokenBridgeContract {
    /// A contract with empty storage; the fee reads as 50 basis points.
    pub fn new() -> (c: Self)
        ensures
            c@ == (TokenBridgeState {
                admin: None,
                relayer: None,
                deposit_counter: 0,
                fee_bps: 50,
                supported_chains: Map::empty(),
                deposits: Map::empty(),
            }),
    {
        TokenBridgeContract {
            admin: None,
            relayer: None,
            deposit_counter: 0,
            fee_bps: 50,
            supported_chains: StringHashMap::new(),
            deposits: BTreeMap::new(),
        }
    }

    /// Stores the administrator and relayer, with a fee of 50 basis points.
    pub fn initialize(&mut self, auth: &Auth, admin: u64, relayer: u64) -> (r: Result<(), Error>)
        ensures
            r == crate::common::outcome(
                if old(self)@.admin is Some {
                    Some(Error::AlreadyInitialized)
                } else if !auth.authorizes(admin) {
                    Some(Error::AuthRequired)
                } else {
                    None
                },
                (),
            ),
            r is Err ==> final(self)@ == old(self)@,
            r is Ok ==> final(self)@ == (TokenBridgeState {
                admin: Some(admin),
                relayer: Some(relayer),
                deposit_counter: 0,
                fee_bps: 50,
                ..old(self)@
            }),
    {
        if self.admin.is_some() {
            return Err(Error::AlreadyInitialized);
        }
        if !auth.check(admin) {
            return Err(Error::AuthRequired);
        }
        self.admin = Some(admin);
        self.relayer = Some(relayer);
        self.deposit_counter = 0;
        self.fee_bps = 50;
        Ok(())
    }

    fn check_admin(&self, auth: &Auth, admin: u64) -> (r: Result<(), Error>)
        ensures
            r == crate::common::outcome(self@.admin_error(*auth, admin), ()),
    {
        if !auth.check(admin) {
            return Err(Error::AuthRequired);
        }
        match self.admin {
            None => Err(Error::NotInitialized),
            Some(a) => if a != admin {
                Err(Error::Unauthorized)
            } else {
                Ok(())
            },
        }
    }

    /// Supports bridging to `chain`, with a daily limit; only the administrator may.
    pub fn add_supported_chain(&mut self, auth: &Auth, admin: u64, chain: String, max_daily_limit: i128) -> (r:
        Result<(), Error>)
        ensures
            r == crate::common::outcome(old(self)@.admin_error(*auth, admin), ()),
            r is Err ==> final(self)@ == old(self)@,
            r is Ok ==> final(self)@ == (TokenBridgeState {
                supported_chains: old(self)@.supported_chains.insert(chain@, max_daily_limit),
                ..old(self)@
            }),
    {
        match self.check_admin(auth, admin) {
            Ok(()) => {},
            Err(e) => {
                return Err(e);
            },
        }
        self.supported_chains.insert(chain, max_daily_limit);
        Ok(())
    }

    /// Locks `amount` of `token` from the sender for a supported chain and
    /// returns the deposit's id, one more than the last; the deposit carries
    /// the amount less the bridge fee.
    pub fn deposit_for_bridge(
        &mut self,
        auth: &Auth,
        ledger: &Ledger,
        sender: u64,
        token: u64,
        amount: i128,
        recipient_chain: String,
        recipient_address: String,
    ) -> (r: Result<(u64, Vec<Transfer>), Error>)
        ensures
            match old(self)@.deposit_error(*auth, sender, amount, recipient_chain@) {
                Some(e) => r == Err::<(u64, Vec<Transfer>), Error>(e) && final(self)@ == old(self)@,
                None => {
                    let id = (old(self)@.deposit_counter + 1) as u64;
                    let fee = bridge_fee_of(amount, old(self)@.fee_bps);
                    &&& r matches Ok((i, t)) && i == id && t@ == seq![
                        Transfer { token, from: Party::Account(sender), to: Party::Contract, amount },
                    ]
                    &&& final(self)@ == TokenBridgeState {
                        deposit_counter: id,
                        deposits: old(self)@.deposits.insert(
                            id,
                            BridgeDeposit {
                                deposit_id: id,
                                sender,
                                recipient_chain,
                                recipient_address,
                                token,
                                amount: (amount - fee) as i128,
                                bridge_fee: fee as i128,
                                status: BridgeStatus::Pending,
                                created_at: ledger.timestamp,
                                completed_at: None,
                                tx_hash: None,
                            },
                        ),
                        ..old(self)@
                    }
                },
            },
    {
        if !auth.check(sender) {
            return Err(Error::AuthRequired);
        }
        if !self.supported_chains.contains_key(recipient_chain.as_str()) {
            return Err(Error::ChainNotSupported);
        }
        if amount <= 0 {
            return Err(Error::InvalidAmount);
        }
        let scaled = match amount.checked_mul(self.fee_bps as i128) {
            Some(x) => x,
            None => {
                return Err(Error::Overflow);
            },
        };
        let bridge_fee = match scaled.checked_div(10_000) {
            Some(q) => q,
            None => {
                return Err(Error::Overflow);
            },
        };
        let net_amount = match amount.checked_sub(bridge_fee) {
            Some(x) => x,
            None => {
                return Err(Error::Overflow);
            },
        };
        if self.deposit_counter == u64::MAX {
            return Err(Error::Overflow);
        }
        let deposit_id = self.deposit_counter + 1;
        let deposit = BridgeDeposit {
            deposit_id,
            sender,
            recipient_chain,
            recipient_address,
            token,
            amount: net_amount,
            bridge_fee,
            status: BridgeStatus::Pending,
            created_at: ledger.timestamp,
            completed_at: None,
            tx_hash: None,
        };
        self.deposits.insert(deposit_id, deposit);
        self.deposit_counter = deposit_id;
        let mut transfers: Vec<Transfer> = Vec::new();
        transfers.push(Transfer { token, from: Party::Account(sender), to: Party::Contract, amount });
        Ok((deposit_id, transfers))
    }

    /// Marks a pending deposit completed with the target chain's transaction
    /// hash; only the relayer may.
    pub fn confirm_bridge(&mut self, auth: &Auth, ledger: &Ledger, relayer: u64, deposit_id: u64, tx_hash: [u8; 32]) -> (r:
        Result<(), Error>)
        ensures
            r == crate::common::outcome(old(self)@.confirm_error(*auth, relayer, deposit_id), ()),
            r is Err ==> final(self)@ == old(self)@,
            r is Ok ==> final(self)@ == (TokenBridgeState {
                deposits: old(self)@.deposits.insert(
                    deposit_id,
                    BridgeDeposit {
                        status: BridgeStatus::Completed,
                        completed_at: Some(ledger.timestamp),
                        tx_hash: Some(tx_hash),
                        ..old(self)@.deposits[deposit_id]
                    },
                ),
                ..old(self)@
            }),
    {
        if !auth.check(relayer) {
            return Err(Error::AuthRequired);
        }
        match self.relayer {
            None => {
                return Err(Error::NotInitialized);
            },
            Some(r) => {
                if r != relayer {
                    return Err(Error::UnauthorizedRelayer);
                }
            },
        }
        let mut deposit = match self.deposits.remove(&deposit_id) {
            Some(d) => d,
            None => {
                assert(self.deposits@ =~= old(self).deposits@);
                return Err(Error::DepositNotFound);
            },
        };
        if deposit.status != BridgeStatus::Pending {
            self.deposits.insert(deposit_id, deposit);
            assert(self.deposits@ =~= old(self).deposits@);
            return Err(Error::NotPending);
        }
        deposit.status = BridgeStatus::Completed;
        deposit.completed_at = Some(ledger.timestamp);
        deposit.tx_hash = Some(tx_hash);
        self.deposits.insert(deposit_id, deposit);
        assert(self.deposits@ =~= old(self).deposits@.insert(deposit_id, deposit));
        Ok(())
    }

    /// Returns a pending or failed deposit in full, fee included, to its
    /// sender and marks it refunded; only the administrator may.
    pub fn refund_deposit(&mut self, auth: &Auth, admin: u64, deposit_id: u64) -> (r: Result<Vec<Transfer>, Error>)
        ensures
            match old(self)@.refund_error(*auth, admin, deposit_id) {
                Some(e) => r == Err::<Vec<Transfer>, Error>(e) && final(self)@ == old(self)@,
                None => {
                    let d = old(self)@.deposits[deposit_id];
                    &&& r matches Ok(t) && t@ == seq![
                        Transfer {
                            token: d.token,
                            from: Party::Contract,
                            to: Party::Account(d.sender),
                            amount: (d.amount + d.bridge_fee) as i128,
                        },
                    ]
                    &&& final(self)@ == TokenBridgeState {
                        deposits: old(self)@.deposits.insert(
                            deposit_id,
                            BridgeDeposit { status: BridgeStatus::Refunded, ..d },
                        ),
                        ..old(self)@
                    }
                },
            },
    {
        match self.check_admin(auth, admin) {
            Ok(()) => {},
            Err(e) => {
                return Err(e);
            },
        }
        let mut deposit = match self.deposits.remove(&deposit_id) {
            Some(d) => d,
            None => {
                assert(self.deposits@ =~= old(self).deposits@);
                return Err(Error::DepositNotFound);
            },
        };
        if deposit.status != BridgeStatus::Pending && deposit.status != BridgeStatus::Failed {
            self.deposits.insert(deposit_id, deposit);
            assert(self.deposits@ =~= old(self).deposits@);
            return Err(Error::CannotRefund);
        }
        let total_refund = match deposit.amount.checked_add(deposit.bridge_fee) {
            Some(x) => x,
            None => {
                self.deposits.insert(deposit_id, deposit);
                assert(self.deposits@ =~= old(self).deposits@);
                return Err(Error::Overflow);
            },
        };
        let mut transfers: Vec<Transfer> = Vec::new();
        transfers.push(
            Transfer {
                token: deposit.token,
                from: Party::Contract,
                to: Party::Account(deposit.sender),
                amount: total_refund,
            },
        );
        deposit.status = BridgeStatus::Refunded;
        self.deposits.insert(deposit_id, deposit);
        assert(self.deposits@ =~= old(self).deposits@.insert(deposit_id, deposit));
        Ok(transfers)
    }

    /// A deposit, if it exists.
    pub fn get_deposit(&self, deposit_id: u64) -> (r: Option<&BridgeDeposit>)
        ensures
            match r {
                Some(d) => self@.deposits.contains_key(deposit_id) && *d == self@.deposits[deposit_id],
                None => !self@.deposits.contains_key(deposit_id),
            },
    {
        self.deposits.get(&deposit_id)
    }
}

/// A deposit splits what was locked into what crosses and the fee, so a
/// refund of both returns exactly what was locked; with the fee rate at
/// most 100% the fee of a positive deposit is between 0 and the deposit.
pub proof fn lemma_refund_returns_deposit(amount: i128, fee_bps: u32)
    requires
        amount > 0,
        fee_bps <= 10_000,
    ensures
        (amount - bridge_fee_of(amount, fee_bps)) + bridge_fee_of(amount, fee_bps) == amount,
        0 <= bridge_fee_of(amount, fee_bps) <= amount,
{
    let a = amount as int;
    let f = fee_bps as int;
    assert(0 <= (a * f) / 10_000 <= a) by (nonlinear_arith)
        requires
            a > 0,
            0 <= f <= 10_000,
    {
        assert(a * f <= a * 10_000);
        assert(a * f >= 0);
    }
    if a * f == 0 {
    }
}

/// A deposit is settled once: a deposit that was confirmed or refunded can
/// be neither confirmed nor refunded again, whoever asks.
pub proof fn lemma_settled_once(s: TokenBridgeState, auth: Auth, relayer: u64, admin: u64, deposit_id: u64)
    requires
        s.deposits.contains_key(deposit_id),
        s.deposits[deposit_id].status == BridgeStatus::Completed || s.deposits[deposit_id].status
            == BridgeStatus::Refunded,
    ensures
        s.confirm_error(auth, relayer, deposit_id) is Some,
        s.refund_error(auth, admin, deposit_id) is Some,
{
}

/// The bridge fee is `fee_bps` basis points of the amount, rounded down:
/// the largest fee whose 10_000-fold is at most the amount times the rate.
pub proof fn lemma_bridge_fee_is_basis_points(amount: i128, fee_bps: u32)
    requires
        amount >= 0,
    ensures
        bridge_fee_of(amount, fee_bps) * 10_000 <= amount * fee_bps < (bridge_fee_of(amount, fee_bps) + 1) * 10_000,
{
    assert(amount * fee_bps >= 0) by (nonlinear_arith)
        requires
            amount >= 0,
    ;
    crate::common::lemma_div_trunc_rounds_to_zero(amount * fee_bps, 10_000);
}

} // verus!
