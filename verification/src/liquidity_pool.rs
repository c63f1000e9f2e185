//! A liquidity pool that funds ad budgets: providers deposit tokens for
//! shares of the pool, and campaigns borrow from the liquidity not lent out.
use vstd::prelude::*;
use std::collections::BTreeMap;
use crate::common::{
    Auth, Error, Ledger, Party, Transfer, clamp_i128, div_trunc, fits_i128, lemma_div_trunc_bounds, lemma_map_total_insert,
    map_total, saturating_sub_i128,
};

verus! {

/// The pool's totals.
#[derive(Clone, Copy, PartialEq, Eq, Structural, Debug)]
pub struct PoolState {
    pub total_liquidity: i128,
    pub total_borrowed: i128,
    /// Percentage kept as reserve.
    pub reserve_factor: u32,
    /// Percentage of the liquidity lent out.
    pub utilization_rate: u32,
    /// Annual rate in basis points.
    pub borrow_rate_bps: u32,
    pub last_updated: u64,
}

/// A provider's deposits and shares.
#[derive(Clone, Copy, PartialEq, Eq, Structural, Debug)]
pub struct ProviderPosition {
    pub provider: u64,
    pub deposited: i128,
    pub shares: i128,
    pub deposited_at: u64,
    pub last_claim: u64,
}

/// A campaign's loan.
#[derive(Clone, Copy, PartialEq, Eq, Structural, Debug)]
pub struct BorrowPosition {
    pub borrower: u64,
    pub campaign_id: u64,
    pub borrowed: i128,
    pub interest_accrued: i128,
    pub borrowed_at: u64,
    pub due_at: u64,
}

/// The contract's storage, as values.
pub struct LiquidityPoolState {
    pub admin: Option<u64>,
    pub token: Option<u64>,
    pub pool: Option<PoolState>,
    pub total_shares: i128,
    pub providers: Map<u64, ProviderPosition>,
    /// Loans by campaign.
    pub borrows: Map<u64, BorrowPosition>,
}

/// The shares a deposit of `amount` buys: as many as the amount for the
/// first deposit, else the amount's proportion of the liquidity, rounded
/// toward zero.
pub open spec fn shares_for_deposit(pool: PoolState, total_shares: i128, amount: i128) -> int {
    if pool.total_liquidity == 0 || total_shares == 0 {
        amount as int
    } else {
        div_trunc(amount * total_shares, pool.total_liquidity as int)
    }
}

/// The tokens that `shares` are worth: their proportion of the liquidity,
/// rounded toward zero.
pub open spec fn amount_for_shares(pool: PoolState, total_shares: i128, shares: i128) -> int {
    div_trunc(shares * pool.total_liquidity, total_shares as int)
}

/// The utilization rate that a borrowed total gives: its percentage of the
/// liquidity, rounded toward zero and cut to 32 bits.
pub open spec fn utilization(total_borrowed: int, total_liquidity: i128) -> u32 {
    (div_trunc(total_borrowed * 100, total_liquidity as int) as i128) as u32
}

/// The shares of a position.
pub open spec fn shares_of(p: ProviderPosition) -> int {
    p.shares as int
}

/// The shares held by all providers together.
pub open spec fn provider_shares(providers: Map<u64, ProviderPosition>) -> int {
    map_total(providers, |p: ProviderPosition| shares_of(p))
}

/// Setting one provider's position changes the providers' shares by the
/// difference in that provider's shares.
pub proof fn lemma_provider_shares_insert(m: Map<u64, ProviderPosition>, k: u64, v: ProviderPosition)
    requires
        m.dom().finite(),
    ensures
        provider_shares(m.insert(k, v)) == provider_shares(m) - (if m.dom().contains(k) {
            m[k].shares as int
        } else {
            0
        }) + v.shares,
{
    lemma_map_total_insert(m, |p: ProviderPosition| shares_of(p), k, v);
}

impl LiquidityPoolState {
    /// What every reachable state satisfies: the pool's share count is the
    /// sum of the providers' shares, and no pool or position exists before
    /// the contract is initialised.
    pub open spec fn wf(self) -> bool {
        &&& self.providers.dom().finite()
        &&& self.total_shares == provider_shares(self.providers)
        &&& self.admin is None ==> self.pool is None
        &&& self.pool is None ==> self.providers.dom() =~= Set::<u64>::empty()
    }

    /// A provider's position, or the empty position it starts from at `now`.
    pub open spec fn position_or_new(self, provider: u64, now: u64) -> ProviderPosition {
        if self.providers.contains_key(provider) {
            self.providers[provider]
        } else {
            ProviderPosition { provider, deposited: 0, shares: 0, deposited_at: now, last_claim: now }
        }
    }

    pub open spec fn deposit_error(self, auth: Auth, provider: u64, amount: i128, now: u64) -> Option<Error> {
        let pool = self.pool.unwrap();
        let shares = shares_for_deposit(pool, self.total_shares, amount);
        let pos = self.position_or_new(provider, now);
        if !auth.authorizes(provider) {
            Some(Error::AuthRequired)
        } else if amount <= 0 {
            Some(Error::InvalidAmount)
        } else if self.token is None || self.pool is None {
            Some(Error::NotInitialized)
        } else if pool.total_liquidity != 0 && self.total_shares != 0 && !fits_i128(amount * self.total_shares) {
            Some(Error::Overflow)
        } else if !fits_i128(shares) || !fits_i128(pool.total_liquidity + amount) || !fits_i128(
            self.total_shares + shares,
        ) || !fits_i128(pos.deposited + amount) || !fits_i128(pos.shares + shares) {
            Some(Error::Overflow)
        } else {
            None
        }
    }

    pub open spec fn withdraw_error(self, auth: Auth, provider: u64, shares: i128) -> Option<Error> {
        let pool = self.pool.unwrap();
        let amount = amount_for_shares(pool, self.total_shares, shares);
        if !auth.authorizes(provider) {
            Some(Error::AuthRequired)
        } else if !self.providers.contains_key(provider) {
            Some(Error::NoPosition)
        } else if self.providers[provider].shares < shares {
            Some(Error::InsufficientShares)
        } else if self.pool is None {
            Some(Error::NotInitialized)
        } else if !fits_i128(shares * pool.total_liquidity) {
            Some(Error::Overflow)
        } else if self.total_shares == 0 {
            Some(Error::DivisionByZero)
        } else if !fits_i128(amount) || !fits_i128(pool.total_liquidity - pool.total_borrowed) {
            Some(Error::Overflow)
        } else if amount > pool.total_liquidity - pool.total_borrowed {
            Some(Error::InsufficientLiquidity)
        } else if !fits_i128(pool.total_liquidity - amount) || !fits_i128(self.total_shares - shares)
            || !fits_i128(self.providers[provider].shares - shares) {
            Some(Error::Overflow)
        } else if self.token is None {
            Some(Error::NotInitialized)
        } else {
            None
        }
    }

    pub open spec fn borrow_error(
        self,
        auth: Auth,
        borrower: u64,
        campaign_id: u64,
        amount: i128,
        duration_secs: u64,
        now: u64,
    ) -> Option<Error> {
        let pool = self.pool.unwrap();
        let borrowed = pool.total_borrowed + amount;
        if !auth.authorizes(borrower) {
            Some(Error::AuthRequired)
        } else if self.pool is None {
            Some(Error::NotInitialized)
        } else if !fits_i128(pool.total_liquidity - pool.total_borrowed) {
            Some(Error::Overflow)
        } else if amount > pool.total_liquidity - pool.total_borrowed {
            Some(Error::InsufficientLiquidity)
        } else if self.borrows.contains_key(campaign_id) {
            Some(Error::AlreadyHasBorrow)
        } else if !fits_i128(borrowed) || !fits_i128(borrowed * 100) {
            Some(Error::Overflow)
        } else if pool.total_liquidity == 0 {
            Some(Error::DivisionByZero)
        } else if !fits_i128(div_trunc(borrowed * 100, pool.total_liquidity as int)) || now + duration_secs
            > u64::MAX {
            Some(Error::Overflow)
        } else if self.token is None {
            Some(Error::NotInitialized)
        } else {
            None
        }
    }

    pub open spec fn repay_error(self, auth: Auth, borrower: u64, campaign_id: u64, amount: i128) -> Option<
        Error,
    > {
        let pool = self.pool.unwrap();
        let b = self.borrows[campaign_id];
        let reduced = pool.total_borrowed - (if amount < b.borrowed {
            amount
        } else {
            b.borrowed
        });
        if !auth.authorizes(borrower) {
            Some(Error::AuthRequired)
        } else if !self.borrows.contains_key(campaign_id) {
            Some(Error::BorrowNotFound)
        } else if b.borrower != borrower {
            Some(Error::Unauthorized)
        } else if self.token is None || self.pool is None {
            Some(Error::NotInitialized)
        } else if !fits_i128(reduced) {
            Some(Error::Overflow)
        } else if pool.total_liquidity > 0 && !fits_i128(reduced * 100) {
            Some(Error::Overflow)
        } else if !fits_i128(pool.total_liquidity + amount) {
            Some(Error::Overflow)
        } else {
            None
        }
    }
}

/// The liquidity-pool contract.
pub struct LiquidityPoolContract {
    admin: Option<u64>,
    token: Option<u64>,
    pool: Option<PoolState>,
    total_shares: i128,
    providers: BTreeMap<u64, ProviderPosition>,
    borrows: BTreeMap<u64, BorrowPosition>,
}

impl View for LiquidityPoolContract {
    type V = LiquidityPoolState;

    closed spec fn view(&self) -> LiquidityPoolState {
        LiquidityPoolState {
            admin: self.admin,
            token: self.token,
            pool: self.pool,
            total_shares: self.total_shares,
            providers: self.providers@,
            borrows: self.borrows@,
        }
    }
}

impl LiquidityPoolContract {
    /// A contract with empty storage.
    pub fn new() -> (c: Self)
        ensures
            c@.wf(),
            c@ == (LiquidityPoolState {
                admin: None,
                token: None,
                pool: None,
                total_shares: 0,
                providers: Map::empty(),
                borrows: Map::empty(),
            }),
    {
        LiquidityPoolContract {
            admin: None,
            token: None,
            pool: None,
            total_shares: 0,
            providers: BTreeMap::new(),
            borrows: BTreeMap::new(),
        }
    }

    /// Stores the administrator and token, and opens an empty pool with a
    /// 10% reserve factor and a 5% annual borrow rate.
    pub fn initialize(&mut self, auth: &Auth, ledger: &Ledger, admin: u64, token: u64) -> (r: Result<(), Error>)
        requires
            old(self)@.wf(),
        ensures
            final(self)@.wf(),
            r == crate::common::outcome(
                if old(self)@.admin is Some {
                    Some(Error::AlreadyInitialized)
                } else if !auth.authorizes(admin) {
                    Some(Error::AuthRequired)
                } else {
                    None
                },
                (),
            ),
            r is Err ==> final(self)@ == old(self)@,
            r is Ok ==> final(self)@ == (LiquidityPoolState {
                admin: Some(admin),
                token: Some(token),
                total_shares: 0,
                pool: Some(
                    PoolState {
                        total_liquidity: 0,
                        total_borrowed: 0,
                        reserve_factor: 10,
                        utilization_rate: 0,
                        borrow_rate_bps: 500,
                        last_updated: ledger.timestamp,
                    },
                ),
                ..old(self)@
            }),
    {
        if self.admin.is_some() {
            return Err(Error::AlreadyInitialized);
        }
        if !auth.check(admin) {
            return Err(Error::AuthRequired);
        }
        self.admin = Some(admin);
        self.token = Some(token);
        self.total_shares = 0;
        self.pool = Some(
            PoolState {
                total_liquidity: 0,
                total_borrowed: 0,
                reserve_factor: 10,
                utilization_rate: 0,
                borrow_rate_bps: 500,
                last_updated: ledger.timestamp,
            },
        );
        Ok(())
    }

    /// Takes `amount` from the provider into the pool and credits the
    /// provider with the shares it buys, which it returns.
    pub fn deposit(&mut self, auth: &Auth, ledger: &Ledger, provider: u64, amount: i128) -> (r: Result<
        (i128, Vec<Transfer>),
        Error,
    >)
        requires
            old(self)@.wf(),
        ensures
            final(self)@.wf(),
            match old(self)@.deposit_error(*auth, provider, amount, ledger.timestamp) {
                Some(e) => r == Err::<(i128, Vec<Transfer>), Error>(e) && final(self)@ == old(self)@,
                None => {
                    let pool = old(self)@.pool.unwrap();
                    let shares = shares_for_deposit(pool, old(self)@.total_shares, amount);
                    let pos = old(self)@.position_or_new(provider, ledger.timestamp);
                    &&& r matches Ok((s, t)) && s == shares && t@ == seq![
                        Transfer {
                            token: old(self)@.token.unwrap(),
                            from: Party::Account(provider),
                            to: Party::Contract,
                            amount,
                        },
                    ]
                    &&& final(self)@ == LiquidityPoolState {
                        pool: Some(
                            PoolState {
                                total_liquidity: (pool.total_liquidity + amount) as i128,
                                last_updated: ledger.timestamp,
                                ..pool
                            },
                        ),
                        total_shares: (old(self)@.total_shares + shares) as i128,
                        providers: old(self)@.providers.insert(
                            provider,
                            ProviderPosition {
                                deposited: (pos.deposited + amount) as i128,
                                shares: (pos.shares + shares) as i128,
                                ..pos
                            },
                        ),
                        ..old(self)@
                    }
                },
            },
    {
        if !auth.check(provider) {
            return Err(Error::AuthRequired);
        }
        if amount <= 0 {
            return Err(Error::InvalidAmount);
        }
        let token = match self.token {
            Some(t) => t,
            None => {
                return Err(Error::NotInitialized);
            },
        };
        let mut pool = match self.pool {
            Some(p) => p,
            None => {
                return Err(Error::NotInitialized);
            },
        };
        let total_shares = self.total_shares;
        let shares: i128 = if pool.total_liquidity == 0 || total_shares == 0 {
            amount
        } else {
            let product = match amount.checked_mul(total_shares) {
                Some(p) => p,
                None => {
                    return Err(Error::Overflow);
                },
            };
            match product.checked_div(pool.total_liquidity) {
                Some(q) => q,
                None => {
                    return Err(Error::Overflow);
                },
            }
        };
        let now = ledger.timestamp;
        let mut position = match self.providers.get(&provider) {
            Some(p) => *p,
            None => ProviderPosition { provider, deposited: 0, shares: 0, deposited_at: now, last_claim: now },
        };
        let new_liquidity = match pool.total_liquidity.checked_add(amount) {
            Some(x) => x,
            None => {
                return Err(Error::Overflow);
            },
        };
        let new_total_shares = match total_shares.checked_add(shares) {
            Some(x) => x,
            None => {
                return Err(Error::Overflow);
            },
        };
        let new_deposited = match position.deposited.checked_add(amount) {
            Some(x) => x,
            None => {
                return Err(Error::Overflow);
            },
        };
        let new_shares = match position.shares.checked_add(shares) {
            Some(x) => x,
            None => {
                return Err(Error::Overflow);
            },
        };
        pool.total_liquidity = new_liquidity;
        pool.last_updated = now;
        self.pool = Some(pool);
        self.total_shares = new_total_shares;
        position.deposited = new_deposited;
        position.shares = new_shares;
        proof {
            lemma_provider_shares_insert(self.providers@, provider, position);
        }
        self.providers.insert(provider, position);
        let mut transfers: Vec<Transfer> = Vec::new();
        transfers.push(Transfer { token, from: Party::Account(provider), to: Party::Contract, amount });
        Ok((shares, transfers))
    }

    /// Redeems `shares` of the provider for their worth in tokens, which it
    /// returns; refused when the pool's unlent liquidity does not cover it.
    pub fn withdraw(&mut self, auth: &Auth, ledger: &Ledger, provider: u64, shares: i128) -> (r: Result<
        (i128, Vec<Transfer>),
        Error,
    >)
        requires
            old(self)@.wf(),
        ensures
            final(self)@.wf(),
            match old(self)@.withdraw_error(*auth, provider, shares) {
                Some(e) => r == Err::<(i128, Vec<Transfer>), Error>(e) && final(self)@ == old(self)@,
                None => {
                    let pool = old(self)@.pool.unwrap();
                    let amount = amount_for_shares(pool, old(self)@.total_shares, shares);
                    let pos = old(self)@.providers[provider];
                    &&& r matches Ok((a, t)) && a == amount && t@ == seq![
                        Transfer {
                            token: old(self)@.token.unwrap(),
                            from: Party::Contract,
                            to: Party::Account(provider),
                            amount: amount as i128,
                        },
                    ]
                    &&& final(self)@ == LiquidityPoolState {
                        pool: Some(
                            PoolState {
                                total_liquidity: (pool.total_liquidity - amount) as i128,
                                last_updated: ledger.timestamp,
                                ..pool
                            },
                        ),
                        total_shares: (old(self)@.total_shares - shares) as i128,
                        providers: old(self)@.providers.insert(
                            provider,
                            ProviderPosition {
                                shares: (pos.shares - shares) as i128,
                                deposited: clamp_i128(pos.deposited - amount),
                                ..pos
                            },
                        ),
                        ..old(self)@
                    }
                },
            },
    {
        if !auth.check(provider) {
            return Err(Error::AuthRequired);
        }
        let mut position = match self.providers.get(&provider) {
            Some(p) => *p,
            None => {
                return Err(Error::NoPosition);
            },
        };
        if position.shares < shares {
            return Err(Error::InsufficientShares);
        }
        let mut pool = match self.pool {
            Some(p) => p,
            None => {
                return Err(Error::NotInitialized);
            },
        };
        let total_shares = self.total_shares;
        let product = match shares.checked_mul(pool.total_liquidity) {
            Some(p) => p,
            None => {
                return Err(Error::Overflow);
            },
        };
        if total_shares == 0 {
            return Err(Error::DivisionByZero);
        }
        let amount = match product.checked_div(total_shares) {
            Some(q) => q,
            None => {
                return Err(Error::Overflow);
            },
        };
        let available = match pool.total_liquidity.checked_sub(pool.total_borrowed) {
            Some(x) => x,
            None => {
                return Err(Error::Overflow);
            },
        };
        if amount > available {
            return Err(Error::InsufficientLiquidity);
        }
        let new_liquidity = match pool.total_liquidity.checked_sub(amount) {
            Some(x) => x,
            None => {
                return Err(Error::Overflow);
            },
        };
        let new_total_shares = match total_shares.checked_sub(shares) {
            Some(x) => x,
            None => {
                return Err(Error::Overflow);
            },
        };
        let new_shares = match position.shares.checked_sub(shares) {
            Some(x) => x,
            None => {
                return Err(Error::Overflow);
            },
        };
        let token = match self.token {
            Some(t) => t,
            None => {
                return Err(Error::NotInitialized);
            },
        };
        pool.total_liquidity = new_liquidity;
        pool.last_updated = ledger.timestamp;
        self.pool = Some(pool);
        self.total_shares = new_total_shares;
        position.shares = new_shares;
        position.deposited = saturating_sub_i128(position.deposited, amount);
        proof {
            lemma_provider_shares_insert(self.providers@, provider, position);
        }
        self.providers.insert(provider, position);
        let mut transfers: Vec<Transfer> = Vec::new();
        transfers.push(Transfer { token, from: Party::Contract, to: Party::Account(provider), amount });
        Ok((amount, transfers))
    }

    /// Lends `amount` to a campaign, which may hold one loan at a time, out
    /// of the liquidity not yet lent, due `duration_secs` from now.
    pub fn borrow(
        &mut self,
        auth: &Auth,
        ledger: &Ledger,
        borrower: u64,
        campaign_id: u64,
        amount: i128,
        duration_secs: u64,
    ) -> (r: Result<Vec<Transfer>, Error>)
        requires
            old(self)@.wf(),
        ensures
            final(self)@.wf(),
            match old(self)@.borrow_error(*auth, borrower, campaign_id, amount, duration_secs, ledger.timestamp) {
                Some(e) => r == Err::<Vec<Transfer>, Error>(e) && final(self)@ == old(self)@,
                None => {
                    let pool = old(self)@.pool.unwrap();
                    let borrowed = pool.total_borrowed + amount;
                    &&& r matches Ok(t) && t@ == seq![
                        Transfer {
                            token: old(self)@.token.unwrap(),
                            from: Party::Contract,
                            to: Party::Account(borrower),
                            amount,
                        },
                    ]
                    &&& final(self)@ == LiquidityPoolState {
                        pool: Some(
                            PoolState {
                                total_borrowed: borrowed as i128,
                                utilization_rate: utilization(borrowed, pool.total_liquidity),
                                last_updated: ledger.timestamp,
                                ..pool
                            },
                        ),
                        borrows: old(self)@.borrows.insert(
                            campaign_id,
                            BorrowPosition {
                                borrower,
                                campaign_id,
                                borrowed: amount,
                                interest_accrued: 0,
                                borrowed_at: ledger.timestamp,
                                due_at: (ledger.timestamp + duration_secs) as u64,
                            },
                        ),
                        ..old(self)@
                    }
                },
            },
    {
        if !auth.check(borrower) {
            return Err(Error::AuthRequired);
        }
        let mut pool = match self.pool {
            Some(p) => p,
            None => {
                return Err(Error::NotInitialized);
            },
        };
        let available = match pool.total_liquidity.checked_sub(pool.total_borrowed) {
            Some(x) => x,
            None => {
                return Err(Error::Overflow);
            },
        };
        if amount > available {
            return Err(Error::InsufficientLiquidity);
        }
        if self.borrows.contains_key(&campaign_id) {
            return Err(Error::AlreadyHasBorrow);
        }
        let borrowed = match pool.total_borrowed.checked_add(amount) {
            Some(x) => x,
            None => {
                return Err(Error::Overflow);
            },
        };
        let scaled = match borrowed.checked_mul(100) {
            Some(x) => x,
            None => {
                return Err(Error::Overflow);
            },
        };
        if pool.total_liquidity == 0 {
            return Err(Error::DivisionByZero);
        }
        let rate = match scaled.checked_div(pool.total_liquidity) {
            Some(q) => q,
            None => {
                return Err(Error::Overflow);
            },
        };
        let now = ledger.timestamp;
        let due_at = match now.checked_add(duration_secs) {
            Some(x) => x,
            None => {
                return Err(Error::Overflow);
            },
        };
        let token = match self.token {
            Some(t) => t,
            None => {
                return Err(Error::NotInitialized);
            },
        };
        pool.total_borrowed = borrowed;
        pool.utilization_rate = #[verifier::truncate] (rate as u32);
        pool.last_updated = now;
        self.pool = Some(pool);
        let position = BorrowPosition {
            borrower,
            campaign_id,
            borrowed: amount,
            interest_accrued: 0,
            borrowed_at: now,
            due_at,
        };
        self.borrows.insert(campaign_id, position);
        let mut transfers: Vec<Transfer> = Vec::new();
        transfers.push(Transfer { token, from: Party::Contract, to: Party::Account(borrower), amount });
        Ok(transfers)
    }

    /// Takes `amount` from the borrower back into the pool and closes the
    /// campaign's loan. The borrowed total falls by at most what the loan
    /// was; the whole amount joins the liquidity.
    pub fn repay(&mut self, auth: &Auth, ledger: &Ledger, borrower: u64, campaign_id: u64, amount: i128) -> (r:
        Result<Vec<Transfer>, Error>)
        requires
            old(self)@.wf(),
        ensures
            final(self)@.wf(),
            match old(self)@.repay_error(*auth, borrower, campaign_id, amount) {
                Some(e) => r == Err::<Vec<Transfer>, Error>(e) && final(self)@ == old(self)@,
                None => {
                    let pool = old(self)@.pool.unwrap();
                    let b = old(self)@.borrows[campaign_id];
                    let reduced = pool.total_borrowed - (if amount < b.borrowed {
                        amount
                    } else {
                        b.borrowed
                    });
                    &&& r matches Ok(t) && t@ == seq![
                        Transfer {
                            token: old(self)@.token.unwrap(),
                            from: Party::Account(borrower),
                            to: Party::Contract,
                            amount,
                        },
                    ]
                    &&& final(self)@ == LiquidityPoolState {
                        pool: Some(
                            PoolState {
                                total_borrowed: reduced as i128,
                                utilization_rate: if pool.total_liquidity > 0 {
                                    utilization(reduced, pool.total_liquidity)
                                } else {
                                    pool.utilization_rate
                                },
                                total_liquidity: (pool.total_liquidity + amount) as i128,
                                last_updated: ledger.timestamp,
                                ..pool
                            },
                        ),
                        borrows: old(self)@.borrows.remove(campaign_id),
                        ..old(self)@
                    }
                },
            },
    {
        if !auth.check(borrower) {
            return Err(Error::AuthRequired);
        }
        let position = match self.borrows.get(&campaign_id) {
            Some(b) => *b,
            None => {
                return Err(Error::BorrowNotFound);
            },
        };
        if position.borrower != borrower {
            return Err(Error::Unauthorized);
        }
        let token = match self.token {
            Some(t) => t,
            None => {
                return Err(Error::NotInitialized);
            },
        };
        let mut pool = match self.pool {
            Some(p) => p,
            None => {
                return Err(Error::NotInitialized);
            },
        };
        let repaid = if amount < position.borrowed {
            amount
        } else {
            position.borrowed
        };
        let reduced = match pool.total_borrowed.checked_sub(repaid) {
            Some(x) => x,
            None => {
                return Err(Error::Overflow);
            },
        };
        pool.total_borrowed = reduced;
        if pool.total_liquidity > 0 {
            let scaled = match reduced.checked_mul(100) {
                Some(x) => x,
                None => {
                    return Err(Error::Overflow);
                },
            };
            let rate = match scaled.checked_div(pool.total_liquidity) {
                Some(q) => q,
                None => {
                    proof {
                        lemma_div_trunc_bounds(scaled as int, pool.total_liquidity as int);
                    }
                    return Err(Error::Overflow);
                },
            };
            pool.utilization_rate = #[verifier::truncate] (rate as u32);
        }
        let new_liquidity = match pool.total_liquidity.checked_add(amount) {
            Some(x) => x,
            None => {
                return Err(Error::Overflow);
            },
        };
        pool.total_liquidity = new_liquidity;
        pool.last_updated = ledger.timestamp;
        self.pool = Some(pool);
        self.borrows.remove(&campaign_id);
        let mut transfers: Vec<Transfer> = Vec::new();
        transfers.push(Transfer { token, from: Party::Account(borrower), to: Party::Contract, amount });
        Ok(transfers)
    }

    /// The pool's totals.
    pub fn get_pool_state(&self) -> (r: Result<PoolState, Error>)
        ensures
            r == (match self@.pool {
                Some(p) => Ok::<PoolState, Error>(p),
                None => Err(Error::NotInitialized),
            }),
    {
        match self.pool {
            Some(p) => Ok(p),
            None => Err(Error::NotInitialized),
        }
    }

    /// A provider's position, if any.
    pub fn get_provider_position(&self, provider: u64) -> (r: Option<ProviderPosition>)
        ensures
            r == (if self@.providers.contains_key(provider) {
                Some(self@.providers[provider])
            } else {
                None::<ProviderPosition>
            }),
    {
        match self.providers.get(&provider) {
            Some(p) => Some(*p),
            None => None,
        }
    }

    /// A campaign's loan, if any.
    pub fn get_borrow(&self, campaign_id: u64) -> (r: Option<BorrowPosition>)
        ensures
            r == (if self@.borrows.contains_key(campaign_id) {
                Some(self@.borrows[campaign_id])
            } else {
                None::<BorrowPosition>
            }),
    {
        match self.borrows.get(&campaign_id) {
            Some(b) => Some(*b),
            None => None,
        }
    }
}

/// The first deposit into an empty pool buys as many shares as it deposits,
/// and redeeming them all at once gives the deposit back.
pub proof fn lemma_first_deposit_round_trip(pool: PoolState, amount: i128)
    requires
        pool.total_liquidity == 0,
        amount > 0,
    ensures
        shares_for_deposit(pool, 0, amount) == amount,
        amount_for_shares(PoolState { total_liquidity: amount, ..pool }, amount, amount) == amount,
{
    assert((amount * amount) / (amount as int) == amount) by (nonlinear_arith)
        requires
            amount > 0,
    ;
}

/// Redeeming shares never pays more than their proportion of the liquidity:
/// with non-negative amounts, redeeming at most all shares pays at most all
/// the liquidity.
pub proof fn lemma_withdraw_at_most_liquidity(pool: PoolState, total_shares: i128, shares: i128)
    requires
        0 <= shares <= total_shares,
        total_shares > 0,
        pool.total_liquidity >= 0,
    ensures
        0 <= amount_for_shares(pool, total_shares, shares) <= pool.total_liquidity,
{
    let l = pool.total_liquidity as int;
    let t = total_shares as int;
    let sh = shares as int;
    assert(0 <= (sh * l) / t <= l) by (nonlinear_arith)
        requires
            0 <= sh <= t,
            t > 0,
            l >= 0,
    {
        assert(sh * l <= t * l);
    }
    assert(sh * l >= 0) by (nonlinear_arith)
        requires
            sh >= 0,
            l >= 0,
    ;
}

/// A provider cannot gain by depositing and at once redeeming the shares it
/// bought: rounding only ever favours the pool.
pub proof fn lemma_deposit_withdraw_no_gain(pool: PoolState, total_shares: i128, amount: i128)
    requires
        pool.total_liquidity > 0,
        total_shares > 0,
        amount > 0,
        fits_i128(pool.total_liquidity + amount),
        fits_i128(total_shares + shares_for_deposit(pool, total_shares, amount)),
    ensures
        ({
            let bought = shares_for_deposit(pool, total_shares, amount);
            &&& 0 <= bought
            &&& amount_for_shares(
                PoolState { total_liquidity: (pool.total_liquidity + amount) as i128, ..pool },
                (total_shares + bought) as i128,
                bought as i128,
            ) <= amount
        }),
{
    let l = pool.total_liquidity as int;
    let t = total_shares as int;
    let a = amount as int;
    let b = (a * t) / l;
    assert(0 <= b && b * l <= a * t) by (nonlinear_arith)
        requires
            l > 0,
            t > 0,
            a > 0,
            b == (a * t) / l,
    ;
    assert(b * (l + a) <= a * (t + b)) by (nonlinear_arith)
        requires
            b * l <= a * t,
            a > 0,
            b >= 0,
    ;
    assert((b * (l + a)) / (t + b) <= a) by (nonlinear_arith)
        requires
            b * (l + a) <= a * (t + b),
            t + b > 0,
            a > 0,
    ;
    assert(b * (l + a) >= 0) by (nonlinear_arith)
        requires
            b >= 0,
            l + a > 0,
    ;
    assert(a * t > 0) by (nonlinear_arith)
        requires
            a > 0,
            t > 0,
    ;
}

/// Shares are priced by the pool: a deposit into a pool with liquidity and
/// shares buys its proportion of the shares, rounded down, and redeeming
/// shares pays their proportion of the liquidity, rounded down.
pub proof fn lemma_shares_are_proportional(pool: PoolState, total_shares: i128, amount: i128, shares: i128)
    requires
        pool.total_liquidity > 0,
        total_shares > 0,
        amount >= 0,
        shares >= 0,
    ensures
        shares_for_deposit(pool, total_shares, amount) * pool.total_liquidity <= amount * total_shares < (
        shares_for_deposit(pool, total_shares, amount) + 1) * pool.total_liquidity,
        amount_for_shares(pool, total_shares, shares) * total_shares <= shares * pool.total_liquidity < (
        amount_for_shares(pool, total_shares, shares) + 1) * total_shares,
{
    assert(amount * total_shares >= 0) by (nonlinear_arith)
        requires
            amount >= 0,
            total_shares > 0,
    ;
    assert(shares * pool.total_liquidity >= 0) by (nonlinear_arith)
        requires
            shares >= 0,
            pool.total_liquidity > 0,
    ;
    crate::common::lemma_div_trunc_rounds_to_zero(amount * total_shares, pool.total_liquidity as int);
    crate::common::lemma_div_trunc_rounds_to_zero(shares * pool.total_liquidity, total_shares as int);
}

/// A deposit into an empty pool buys as many shares as it deposits.
pub proof fn lemma_first_deposit_shares(pool: PoolState, total_shares: i128, amount: i128)
    requires
        pool.total_liquidity == 0 || total_shares == 0,
    ensures
        shares_for_deposit(pool, total_shares, amount) == amount,
{
}

/// The utilization rate is the borrowed total's percentage of the
/// liquidity, rounded down (while it fits in 32 bits).
pub proof fn lemma_utilization_is_percentage(total_borrowed: int, total_liquidity: i128)
    requires
        total_liquidity > 0,
        0 <= total_borrowed * 100,
        div_trunc(total_borrowed * 100, total_liquidity as int) <= u32::MAX,
    ensures
        utilization(total_borrowed, total_liquidity) * total_liquidity <= total_borrowed * 100 < (utilization(
            total_borrowed,
            total_liquidity,
        ) + 1) * total_liquidity,
{
    crate::common::lemma_div_trunc_rounds_to_zero(total_borrowed * 100, total_liquidity as int);
    lemma_div_trunc_bounds(total_borrowed * 100, total_liquidity as int);
}

} // verus!
