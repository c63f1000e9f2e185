//! Wrapped tokens from other chains: a relayer mints wrapped balances for
//! deposits seen on the source chain, and holders burn them to go back.
use vstd::prelude::*;
use std::collections::BTreeMap;
use vstd::hash_map::StringHashMap;
use crate::common::{Auth, Error, Ledger, fits_i128, lemma_map_total_insert, map_total};

verus! {

/// A registered wrapped token.
#[derive(Clone, Debug)]
pub struct WrappedToken {
    pub symbol: String,
    pub name: String,
    pub decimals: u32,
    pub underlying_chain: String,
    pub underlying_address: String,
    pub stellar_token: u64,
    pub total_wrapped: i128,
    pub is_active: bool,
}

/// A mint of wrapped tokens.
#[derive(Clone, Debug)]
pub struct WrapRecord {
    pub record_id: u64,
    pub user: u64,
    pub token: String,
    pub amount: i128,
    /// Transaction id on the source chain.
    pub source_tx: String,
    pub wrapped_at: u64,
}

/// The contract's storage, as values.
pub struct WrappedTokenState {
    pub admin: Option<u64>,
    pub relayer: Option<u64>,
    pub record_counter: u64,
    /// Tokens by symbol.
    pub tokens: Map<Seq<char>, WrappedToken>,
    pub records: Map<u64, WrapRecord>,
    /// Balances by symbol, then by holder.
    pub balances: Map<Seq<char>, Map<u64, i128>>,
}

impl WrappedTokenState {
    /// A holder's balance of a wrapped token.
    pub open spec fn balance_of(self, symbol: Seq<char>, user: u64) -> i128 {
        if self.balances.contains_key(symbol) && self.balances[symbol].contains_key(user) {
            self.balances[symbol][user]
        } else {
            0
        }
    }

    /// The balances after setting one holder's balance of one token.
    pub open spec fn with_balance(self, symbol: Seq<char>, user: u64, amount: i128) -> Map<Seq<char>, Map<u64, i128>> {
        let inner = if self.balances.contains_key(symbol) {
            self.balances[symbol]
        } else {
            Map::empty()
        };
        self.balances.insert(symbol, inner.insert(user, amount))
    }

    /// The storage after a holder's balance of a token and the token's
    /// wrapped total both change by `delta`.
    pub open spec fn after_supply_change(self, symbol: Seq<char>, user: u64, delta: int) -> Self {
        let t = self.tokens[symbol];
        WrappedTokenState {
            balances: self.with_balance(symbol, user, (self.balance_of(symbol, user) + delta) as i128),
            tokens: self.tokens.insert(symbol, WrappedToken { total_wrapped: (t.total_wrapped + delta) as i128, ..t }),
            ..self
        }
    }

    /// What every reachable state satisfies: balances are kept only for
    /// registered tokens, and each token's holders are finitely many.
    pub open spec fn wf(self) -> bool {
        &&& forall|sym: Seq<char>| #[trigger] self.balances.contains_key(sym) ==> self.tokens.contains_key(sym)
            && self.balances[sym].dom().finite()
    }

    /// The storage after a token is registered under its symbol, active and
    /// with nothing wrapped.
    pub open spec fn after_register(
        self,
        symbol: String,
        name: String,
        decimals: u32,
        underlying_chain: String,
        underlying_address: String,
        stellar_token: u64,
    ) -> Self {
        WrappedTokenState {
            tokens: self.tokens.insert(
                symbol@,
                WrappedToken {
                    symbol,
                    name,
                    decimals,
                    underlying_chain,
                    underlying_address,
                    stellar_token,
                    total_wrapped: 0,
                    is_active: true,
                },
            ),
            ..self
        }
    }

    pub open spec fn mint_error(self, auth: Auth, relayer: u64, symbol: Seq<char>, recipient: u64, amount: i128) -> Option<
        Error,
    > {
        let t = self.tokens[symbol];
        if !auth.authorizes(relayer) {
            Some(Error::AuthRequired)
        } else if self.relayer is None {
            Some(Error::NotInitialized)
        } else if self.relayer != Some(relayer) {
            Some(Error::UnauthorizedRelayer)
        } else if !self.tokens.contains_key(symbol) {
            Some(Error::TokenNotRegistered)
        } else if !t.is_active {
            Some(Error::TokenNotActive)
        } else if !fits_i128(self.balance_of(symbol, recipient) + amount) || !fits_i128(t.total_wrapped + amount)
            || self.record_counter == u64::MAX {
            Some(Error::Overflow)
        } else {
            None
        }
    }

    pub open spec fn burn_error(self, auth: Auth, user: u64, symbol: Seq<char>, amount: i128) -> Option<Error> {
        let current = self.balance_of(symbol, user);
        if !auth.authorizes(user) {
            Some(Error::AuthRequired)
        } else if current < amount {
            Some(Error::InsufficientBalance)
        } else if !fits_i128(current - amount) {
            Some(Error::Overflow)
        } else if !self.tokens.contains_key(symbol) {
            Some(Error::TokenNotRegistered)
        } else if !fits_i128(self.tokens[symbol].total_wrapped - amount) {
            Some(Error::Overflow)
        } else {
            None
        }
    }
}

/// The wrapped-token contract.
pub struct WrappedTokenContract {
    admin: Option<u64>,
    relayer: Option<u64>,
    record_counter: u64,
    tokens: StringHashMap<WrappedToken>,
    records: BTreeMap<u64, WrapRecord>,
    balances: StringHashMap<BTreeMap<u64, i128>>,
}

impl View for WrappedTokenContract {
    type V = WrappedTokenState;

    closed spec fn view(&self) -> WrappedTokenState {
        WrappedTokenState {
            admin: self.admin,
            relayer: self.relayer,
            record_counter: self.record_counter,
            tokens: self.tokens@,
            records: self.records@,
            balances: self.balances@.map_values(|m: BTreeMap<u64, i128>| m@),
        }
    }
}

fn with_total(t: &WrappedToken, total: i128) -> (r: WrappedToken)
    ensures
        r == (WrappedToken { total_wrapped: total, ..*t }),
{
    WrappedToken {
        symbol: t.symbol.clone(),
        name: t.name.clone(),
        decimals: t.decimals,
        underlying_chain: t.underlying_chain.clone(),
        underlying_address: t.underlying_address.clone(),
        stellar_token: t.stellar_token,
        total_wrapped: total,
        is_active: t.is_active,
    }
}

impl WrappedTokenContract {
    /// A contract with empty storage.
    pub fn new() -> (c: Self)
        ensures
            c@.wf(),
            c@ == (WrappedTokenState {
                admin: None,
                relayer: None,
                record_counter: 0,
                tokens: Map::empty(),
                records: Map::empty(),
                balances: Map::empty(),
            }),
    {
        let c = WrappedTokenContract {
            admin: None,
            relayer: None,
            record_counter: 0,
            tokens: StringHashMap::new(),
            records: BTreeMap::new(),
            balances: StringHashMap::new(),
        };
        assert(c@.balances =~= Map::<Seq<char>, Map<u64, i128>>::empty());
        c
    }

    /// Stores the administrator and the relayer.
    pub fn initialize(&mut self, auth: &Auth, admin: u64, relayer: u64) -> (r: Result<(), Error>)
        requires
            old(self)@.wf(),
        ensures
            final(self)@.wf(),
            r == crate::common::outcome(
                if old(self)@.admin is Some {
                    Some(Error::AlreadyInitialized)
                } else if !auth.authorizes(admin) {
                    Some(Error::AuthRequired)
                } else {
                    None
                },
                (),
            ),
            r is Err ==> final(self)@ == old(self)@,
            r is Ok ==> final(self)@ == (WrappedTokenState {
                admin: Some(admin),
                relayer: Some(relayer),
                record_counter: 0,
                ..old(self)@
            }),
    {
        if self.admin.is_some() {
            return Err(Error::AlreadyInitialized);
        }
        if !auth.check(admin) {
            return Err(Error::AuthRequired);
        }
        self.admin = Some(admin);
        self.relayer = Some(relayer);
        self.record_counter = 0;
        Ok(())
    }

    /// Registers a wrapped token under its symbol, active and with nothing
    /// wrapped, replacing any earlier registration; only the administrator may.
    pub fn register_wrapped_token(
        &mut self,
        auth: &Auth,
        admin: u64,
        symbol: String,
        name: String,
        decimals: u32,
        underlying_chain: String,
        underlying_address: String,
        stellar_token: u64,
    ) -> (r: Result<(), Error>)
        requires
            old(self)@.wf(),
        ensures
            final(self)@.wf(),
            r == crate::common::outcome(
                if !auth.authorizes(admin) {
                    Some(Error::AuthRequired)
                } else if old(self)@.admin is None {
                    Some(Error::NotInitialized)
                } else if old(self)@.admin != Some(admin) {
                    Some(Error::Unauthorized)
                } else {
                    None
                },
                (),
            ),
            r is Err ==> final(self)@ == old(self)@,
            r is Ok ==> final(self)@ == old(self)@.after_register(
                symbol,
                name,
                decimals,
                underlying_chain,
                underlying_address,
                stellar_token,
            ),
    {
        if !auth.check(admin) {
            return Err(Error::AuthRequired);
        }
        match self.admin {
            None => {
                return Err(Error::NotInitialized);
            },
            Some(a) => {
                if a != admin {
                    return Err(Error::Unauthorized);
                }
            },
        }
        let key = symbol.clone();
        let wrapped = WrappedToken {
            symbol,
            name,
            decimals,
            underlying_chain,
            underlying_address,
            stellar_token,
            total_wrapped: 0,
            is_active: true,
        };
        self.tokens.insert(key, wrapped);
        Ok(())
    }

    fn balance(&self, symbol: &str, user: u64) -> (r: i128)
        ensures
            r == self@.balance_of(symbol@, user),
    {
        match self.balances.get(symbol) {
            Some(m) => match m.get(&user) {
                Some(b) => *b,
                None => 0,
            },
            None => 0,
        }
    }

    fn set_balance(&mut self, symbol: &String, user: u64, amount: i128)
        requires
            old(self)@.wf(),
            old(self)@.tokens.contains_key(symbol@),
        ensures
            final(self)@.wf(),
            final(self)@ == (WrappedTokenState {
                balances: old(self)@.with_balance(symbol@, user, amount),
                ..old(self)@
            }),
    {
        let mut inner = match self.balances.get(symbol.as_str()) {
            Some(m) => m.clone(),
            None => BTreeMap::new(),
        };
        inner.insert(user, amount);
        self.balances.insert(symbol.clone(), inner);
        assert(self@.balances =~= old(self)@.with_balance(symbol@, user, amount));
    }

    /// Mints `amount` of a registered, active wrapped token to `recipient`,
    /// records the mint, and returns its id, one more than the last; only
    /// the relayer may.
    pub fn mint_wrapped(
        &mut self,
        auth: &Auth,
        ledger: &Ledger,
        relayer: u64,
        symbol: String,
        recipient: u64,
        amount: i128,
        source_tx: String,
    ) -> (r: Result<u64, Error>)
        requires
            old(self)@.wf(),
        ensures
            final(self)@.wf(),
            match old(self)@.mint_error(*auth, relayer, symbol@, recipient, amount) {
                Some(e) => r == Err::<u64, Error>(e) && final(self)@ == old(self)@,
                None => {
                    let id = (old(self)@.record_counter + 1) as u64;
                    &&& r == Ok::<u64, Error>(id)
                    &&& final(self)@ == WrappedTokenState {
                        record_counter: id,
                        records: old(self)@.records.insert(
                            id,
                            WrapRecord {
                                record_id: id,
                                user: recipient,
                                token: symbol,
                                amount,
                                source_tx,
                                wrapped_at: ledger.timestamp,
                            },
                        ),
                        ..old(self)@.after_supply_change(symbol@, recipient, amount as int)
                    }
                },
            },
    {
        if !auth.check(relayer) {
            return Err(Error::AuthRequired);
        }
        match self.relayer {
            None => {
                return Err(Error::NotInitialized);
            },
            Some(r) => {
                if r != relayer {
                    return Err(Error::UnauthorizedRelayer);
                }
            },
        }
        let (updated, total) = match self.tokens.get(symbol.as_str()) {
            Some(t) => {
                if !t.is_active {
                    return Err(Error::TokenNotActive);
                }
                (with_total(t, 0), t.total_wrapped)
            },
            None => {
                return Err(Error::TokenNotRegistered);
            },
        };
        let current = self.balance(symbol.as_str(), recipient);
        let new_balance = match current.checked_add(amount) {
            Some(x) => x,
            None => {
                return Err(Error::Overflow);
            },
        };
        let new_total = match total.checked_add(amount) {
            Some(x) => x,
            None => {
                return Err(Error::Overflow);
            },
        };
        if self.record_counter == u64::MAX {
            return Err(Error::Overflow);
        }
        let mut updated = updated;
        updated.total_wrapped = new_total;
        self.set_balance(&symbol, recipient, new_balance);
        self.tokens.insert(symbol.clone(), updated);
        let record_id = self.record_counter + 1;
        let record = WrapRecord {
            record_id,
            user: recipient,
            token: symbol,
            amount,
            source_tx,
            wrapped_at: ledger.timestamp,
        };
        self.records.insert(record_id, record);
        self.record_counter = record_id;
        Ok(record_id)
    }

    /// Burns `amount` of the user's wrapped balance, to be released to
    /// `target_address` on the source chain.
    pub fn burn_wrapped(&mut self, auth: &Auth, user: u64, symbol: String, amount: i128, target_address: String) -> (r:
        Result<(), Error>)
        requires
            old(self)@.wf(),
        ensures
            final(self)@.wf(),
            r == crate::common::outcome(old(self)@.burn_error(*auth, user, symbol@, amount), ()),
            r is Err ==> final(self)@ == old(self)@,
            r is Ok ==> final(self)@ == old(self)@.after_supply_change(symbol@, user, -amount),
    {
        if !auth.check(user) {
            return Err(Error::AuthRequired);
        }
        let current = self.balance(symbol.as_str(), user);
        if current < amount {
            return Err(Error::InsufficientBalance);
        }
        let new_balance = match current.checked_sub(amount) {
            Some(x) => x,
            None => {
                return Err(Error::Overflow);
            },
        };
        let mut updated = match self.tokens.get(symbol.as_str()) {
            Some(t) => with_total(t, t.total_wrapped),
            None => {
                return Err(Error::TokenNotRegistered);
            },
        };
        let new_total = match updated.total_wrapped.checked_sub(amount) {
            Some(x) => x,
            None => {
                return Err(Error::Overflow);
            },
        };
        updated.total_wrapped = new_total;
        self.set_balance(&symbol, user, new_balance);
        self.tokens.insert(symbol, updated);
        Ok(())
    }

    /// A wrapped token, by symbol, if registered.
    pub fn get_wrapped_token(&self, symbol: &str) -> (r: Option<&WrappedToken>)
        ensures
            match r {
                Some(t) => self@.tokens.contains_key(symbol@) && *t == self@.tokens[symbol@],
                None => !self@.tokens.contains_key(symbol@),
            },
    {
        self.tokens.get(symbol)
    }

    /// A holder's balance of a wrapped token.
    pub fn get_user_balance(&self, symbol: &str, user: u64) -> (r: i128)
        ensures
            r == self@.balance_of(symbol@, user),
    {
        self.balance(symbol, user)
    }
}

/// Reading a balance gives back what was last written for that holder and
/// token, and writing one balance leaves every other as it was.
pub proof fn lemma_balance_read_after_write(
    s: WrappedTokenState,
    symbol: Seq<char>,
    user: u64,
    amount: i128,
    other_symbol: Seq<char>,
    other_user: u64,
)
    ensures
        (WrappedTokenState { balances: s.with_balance(symbol, user, amount), ..s }).balance_of(symbol, user)
            == amount,
        (other_symbol != symbol || other_user != user) ==> (WrappedTokenState {
            balances: s.with_balance(symbol, user, amount),
            ..s
        }).balance_of(other_symbol, other_user) == s.balance_of(other_symbol, other_user),
{
}

/// A mint followed by a burn of the same amount by the same holder restores
/// the holder's balance, every other balance, and the token.
pub proof fn lemma_mint_burn_round_trip(
    s: WrappedTokenState,
    symbol: Seq<char>,
    user: u64,
    amount: i128,
    other_symbol: Seq<char>,
    other_user: u64,
)
    requires
        s.tokens.contains_key(symbol),
        fits_i128(s.balance_of(symbol, user) + amount),
        fits_i128(s.tokens[symbol].total_wrapped + amount),
    ensures
        ({
            let s2 = s.after_supply_change(symbol, user, amount as int).after_supply_change(symbol, user, -amount);
            &&& s2.balance_of(other_symbol, other_user) == s.balance_of(other_symbol, other_user)
            &&& s2.tokens == s.tokens
        }),
{
    let s1 = s.after_supply_change(symbol, user, amount as int);
    let s2 = s1.after_supply_change(symbol, user, -amount);
    assert(s2.tokens[symbol] == s.tokens[symbol]);
    assert(s2.tokens =~= s.tokens);
}

/// A balance as an integer.
pub open spec fn balance_value(b: i128) -> int {
    b as int
}

/// What the holders of a token hold together.
pub open spec fn holders_total(s: WrappedTokenState, symbol: Seq<char>) -> int {
    if s.balances.contains_key(symbol) {
        map_total(s.balances[symbol], |b: i128| balance_value(b))
    } else {
        0
    }
}

/// Whether a token is registered, its wrapped total is what its holders
/// hold together, and no holder's balance is negative.
pub open spec fn supply_sound(s: WrappedTokenState, symbol: Seq<char>) -> bool {
    &&& s.tokens.contains_key(symbol)
    &&& s.tokens[symbol].total_wrapped == holders_total(s, symbol)
    &&& forall|u: u64| #[trigger] s.balance_of(symbol, u) >= 0
}

/// Registering a token that was never registered starts its supply sound:
/// nothing wrapped and nothing held.
pub proof fn lemma_register_starts_supply(
    s: WrappedTokenState,
    symbol: String,
    name: String,
    decimals: u32,
    underlying_chain: String,
    underlying_address: String,
    stellar_token: u64,
)
    requires
        s.wf(),
        !s.tokens.contains_key(symbol@),
    ensures
        supply_sound(
            s.after_register(symbol, name, decimals, underlying_chain, underlying_address, stellar_token),
            symbol@,
        ),
{
}

/// Mints and burns keep a token's supply sound: a mint of a non-negative
/// amount and any burn that goes through change the holder's balance and
/// the wrapped total by the same amount, and leave no balance negative.
/// (Registering the token again resets its wrapped total while its
/// balances stay, and a mint of a negative amount can leave a negative
/// balance: both are left out.)
pub proof fn lemma_mint_burn_keep_supply(
    s: WrappedTokenState,
    auth: Auth,
    relayer: u64,
    symbol: Seq<char>,
    user: u64,
    amount: i128,
)
    requires
        s.wf(),
        supply_sound(s, symbol),
    ensures
        amount >= 0 && s.mint_error(auth, relayer, symbol, user, amount) is None ==> supply_sound(
            s.after_supply_change(symbol, user, amount as int),
            symbol,
        ),
        s.burn_error(auth, user, symbol, amount) is None ==> supply_sound(
            s.after_supply_change(symbol, user, -amount),
            symbol,
        ),
{
    if amount >= 0 && s.mint_error(auth, relayer, symbol, user, amount) is None {
        lemma_supply_change(s, symbol, user, amount as int);
    }
    if s.burn_error(auth, user, symbol, amount) is None {
        lemma_supply_change(s, symbol, user, -amount);
    }
}

/// A change of one token's supply, or a registration under another symbol,
/// leaves every other token's supply as sound as it was.
pub proof fn lemma_supply_of_others(
    s: WrappedTokenState,
    symbol: Seq<char>,
    user: u64,
    delta: int,
    registered: String,
    name: String,
    decimals: u32,
    underlying_chain: String,
    underlying_address: String,
    stellar_token: u64,
    other: Seq<char>,
)
    requires
        other != symbol,
        other != registered@,
    ensures
        supply_sound(s.after_supply_change(symbol, user, delta), other) == supply_sound(s, other),
        supply_sound(
            s.after_register(registered, name, decimals, underlying_chain, underlying_address, stellar_token),
            other,
        ) == supply_sound(s, other),
{
    let s1 = s.after_supply_change(symbol, user, delta);
    assert(s1.balances.contains_key(other) == s.balances.contains_key(other));
    assert(s1.balances.contains_key(other) ==> s1.balances[other] == s.balances[other]);
    assert(holders_total(s1, other) == holders_total(s, other));
    assert forall|u: u64| #[trigger] s1.balance_of(other, u) == s.balance_of(other, u) by {}
    assert(s1.tokens.contains_key(other) == s.tokens.contains_key(other));
    assert(s.tokens.contains_key(other) ==> s1.tokens[other] == s.tokens[other]);
    if supply_sound(s, other) {
        assert forall|u: u64| #[trigger] s1.balance_of(other, u) >= 0 by {
            assert(s.balance_of(other, u) >= 0);
        }
    }
    if supply_sound(s1, other) {
        assert forall|u: u64| #[trigger] s.balance_of(other, u) >= 0 by {
            assert(s1.balance_of(other, u) >= 0);
        }
    }
    let s2 = s.after_register(registered, name, decimals, underlying_chain, underlying_address, stellar_token);
    assert(s2.tokens.contains_key(other) == s.tokens.contains_key(other));
    assert(s.tokens.contains_key(other) ==> s2.tokens[other] == s.tokens[other]);
    assert(holders_total(s2, other) == holders_total(s, other));
    if supply_sound(s, other) {
        assert forall|u: u64| #[trigger] s2.balance_of(other, u) >= 0 by {
            assert(s.balance_of(other, u) >= 0);
        }
    }
    if supply_sound(s2, other) {
        assert forall|u: u64| #[trigger] s.balance_of(other, u) >= 0 by {
            assert(s2.balance_of(other, u) >= 0);
        }
    }
}

/// One change of a token's supply keeps it sound when the holder's balance
/// stays non-negative and both totals stay in range.
proof fn lemma_supply_change(s: WrappedTokenState, symbol: Seq<char>, user: u64, delta: int)
    requires
        s.wf(),
        supply_sound(s, symbol),
        s.balance_of(symbol, user) + delta >= 0,
        fits_i128(s.balance_of(symbol, user) + delta),
        fits_i128(s.tokens[symbol].total_wrapped + delta),
    ensures
        supply_sound(s.after_supply_change(symbol, user, delta), symbol),
{
    let amount = (s.balance_of(symbol, user) + delta) as i128;
    let inner = if s.balances.contains_key(symbol) {
        s.balances[symbol]
    } else {
        Map::<u64, i128>::empty()
    };
    lemma_map_total_insert(inner, |b: i128| balance_value(b), user, amount);
    if !s.balances.contains_key(symbol) {
        assert(inner.dom() =~= Set::<u64>::empty());
        crate::common::lemma_map_total_empty(inner, |b: i128| balance_value(b));
    }
    let s1 = s.after_supply_change(symbol, user, delta);
    assert forall|u: u64| #[trigger] s1.balance_of(symbol, u) >= 0 by {
        if u != user {
            assert(s1.balance_of(symbol, u) == s.balance_of(symbol, u));
        }
    }
}

/// A mint or burn moves exactly one holder's balance of one token, and that
/// token's wrapped total, by the same amount; every other balance and token
/// is as it was.
pub proof fn lemma_supply_change_moves_one_balance(
    s: WrappedTokenState,
    symbol: Seq<char>,
    user: u64,
    delta: int,
    other_symbol: Seq<char>,
    other_user: u64,
)
    requires
        s.tokens.contains_key(symbol),
        fits_i128(s.balance_of(symbol, user) + delta),
        fits_i128(s.tokens[symbol].total_wrapped + delta),
    ensures
        ({
            let s2 = s.after_supply_change(symbol, user, delta);
            &&& s2.balance_of(symbol, user) == s.balance_of(symbol, user) + delta
            &&& s2.tokens[symbol].total_wrapped == s.tokens[symbol].total_wrapped + delta
            &&& s2.tokens[symbol].is_active == s.tokens[symbol].is_active
            &&& (other_symbol != symbol || other_user != user) ==> s2.balance_of(other_symbol, other_user)
                == s.balance_of(other_symbol, other_user)
            &&& other_symbol != symbol ==> s2.tokens[other_symbol] == s.tokens[other_symbol]
        }),
{
}

} // verus!
