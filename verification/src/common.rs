//! Values shared by every contract of the platform: how an invocation is
//! authorised, what the ledger says about the current moment, which token
//! movements an operation asks the host to perform, and the reasons for
//! which an operation is refused.
use vstd::prelude::*;

verus! {

/// The accounts whose authorisation an invocation carries.
///
/// On the network the host checks signatures; here an invocation either
/// carries every authorisation it asks for (`all`), or exactly the
/// authorisations of the accounts in `signers`.
pub struct Auth {
    pub all: bool,
    pub signers: Vec<u64>,
}

impl Auth {
    /// Whether the invocation carries the authorisation of `account`.
    pub open spec fn authorizes(&self, account: u64) -> bool {
        self.all || self.signers@.contains(account)
    }

    /// An invocation that carries every authorisation it asks for.
    pub fn all() -> (r: Auth)
        ensures
            forall|a: u64| r.authorizes(a),
    {
        Auth { all: true, signers: Vec::new() }
    }

    /// An invocation that carries no authorisation at all.
    pub fn none() -> (r: Auth)
        ensures
            forall|a: u64| !r.authorizes(a),
    {
        Auth { all: false, signers: Vec::new() }
    }

    /// An invocation signed by exactly the accounts in `signers`.
    pub fn signed_by(signers: Vec<u64>) -> (r: Auth)
        ensures
            forall|a: u64| r.authorizes(a) <==> signers@.contains(a),
    {
        Auth { all: false, signers }
    }

    /// Checks that the invocation carries the authorisation of `account`.
    pub fn check(&self, account: u64) -> (r: bool)
        ensures
            r == self.authorizes(account),
    {
        if self.all {
            return true;
        }
        let mut i: usize = 0;
        while i < self.signers.len()
            invariant
                0 <= i <= self.signers.len(),
                forall|j: int| 0 <= j < i ==> self.signers@[j] != account,
            decreases self.signers.len() - i,
        {
            if self.signers[i] == account {
                return true;
            }
            i = i + 1;
        }
        false
    }
}

/// What the ledger says about the moment an invocation runs.
#[derive(Clone, Copy)]
pub struct Ledger {
    /// Close time of the ledger, in seconds.
    pub timestamp: u64,
    /// Sequence number of the ledger.
    pub sequence: u32,
}

/// One side of a token movement.
#[derive(Clone, Copy, PartialEq, Eq, Structural, Debug)]
pub enum Party {
    /// The contract that performs the operation.
    Contract,
    /// An account or another contract, by its identifier.
    Account(u64),
}

/// A token movement that an operation asks the host to perform. The
/// operation takes effect only if every movement it asks for succeeds.
#[derive(Clone, Copy, PartialEq, Eq, Structural, Debug)]
pub struct Transfer {
    pub token: u64,
    pub from: Party,
    pub to: Party,
    pub amount: i128,
}

/// The reasons for which an operation is refused. A refused operation
/// leaves the contract's state as it was.
#[derive(Clone, Copy, PartialEq, Eq, Structural, Debug)]
pub enum Error {
    /// The invocation lacks an authorisation that the operation asks for.
    AuthRequired,
    /// The contract holds no configuration yet.
    NotInitialized,
    /// A computation left the range of its integer type.
    Overflow,
    /// A computation divided by zero.
    DivisionByZero,
    AlreadyInitialized,
    Unauthorized,
    UnauthorizedRelayer,
    NotPendingAdmin,
    NoPendingAdmin,
    PublisherNotFound,
    PaymentNotFound,
    CampaignNotFound,
    SubscriptionNotFound,
    PublisherNotVerified,
    InvalidAmount,
    TokenNotRegistered,
    SegmentNotFound,
    ListingNotFound,
    LifecycleNotFound,
    InsufficientLiquidity,
    DepositNotFound,
    VerificationFailed,
    TooEarly,
    TokenNotActive,
    SameTier,
    ReportNotFound,
    RateLimitExceeded,
    ProgramNotFound,
    ProgramNotActive,
    ProgramEnded,
    PlanNotFound,
    PaymentNotActive,
    NotRegistered,
    NotPending,
    NotAuthorizedOracle,
    NotAuthorizedAttester,
    NoSubscriptionFound,
    NoRewards,
    NoPosition,
    NoPendingRewards,
    NoActiveSubscription,
    MetricsBelowThreshold,
    MaxPaymentsReached,
    ListingNotActive,
    InvalidThreshold,
    InvalidStateTransition,
    InvalidScore,
    InvalidPrice,
    InvalidInterval,
    InvalidDuration,
    InvalidAgeRange,
    InsufficientShares,
    InsufficientBudget,
    InsufficientBalance,
    FeeTooHigh,
    ExceedsBudget,
    DuplicateView,
    DowngradeNotAllowed,
    DomainAlreadyRegistered,
    DailyViewLimitReached,
    ChainNotSupported,
    CannotRefund,
    CampaignTypeNotFound,
    CampaignNotRefundable,
    CampaignNotActive,
    CampaignExpired,
    BudgetTooLow,
    BorrowNotFound,
    AlreadyRegistered,
    AlreadyLicensed,
    AlreadyHasBorrow,
    AlreadyAttested,
    AlreadyActive,
    AlreadyMember,
    ContentAlreadyListed,
}

/// The message with which the contract reports a refusal for `e`.
pub open spec fn message_of(e: Error) -> Seq<char> {
    match e {
        Error::AuthRequired => "authorization required"@,
        Error::NotInitialized => "not initialized"@,
        Error::Overflow => "arithmetic overflow"@,
        Error::DivisionByZero => "division by zero"@,
        Error::AlreadyInitialized => "already initialized"@,
        Error::Unauthorized => "unauthorized"@,
        Error::UnauthorizedRelayer => "unauthorized relayer"@,
        Error::NotPendingAdmin => "not pending admin"@,
        Error::NoPendingAdmin => "no pending admin"@,
        Error::PublisherNotFound => "publisher not found"@,
        Error::PaymentNotFound => "payment not found"@,
        Error::CampaignNotFound => "campaign not found"@,
        Error::SubscriptionNotFound => "subscription not found"@,
        Error::PublisherNotVerified => "publisher not verified"@,
        Error::InvalidAmount => "invalid amount"@,
        Error::TokenNotRegistered => "token not registered"@,
        Error::SegmentNotFound => "segment not found"@,
        Error::ListingNotFound => "listing not found"@,
        Error::LifecycleNotFound => "lifecycle not found"@,
        Error::InsufficientLiquidity => "insufficient liquidity"@,
        Error::DepositNotFound => "deposit not found"@,
        Error::VerificationFailed => "verification failed"@,
        Error::TooEarly => "too early"@,
        Error::TokenNotActive => "token not active"@,
        Error::SameTier => "same tier: use renew instead"@,
        Error::ReportNotFound => "report not found"@,
        Error::RateLimitExceeded => "rate limit exceeded"@,
        Error::ProgramNotFound => "program not found"@,
        Error::ProgramNotActive => "program not active"@,
        Error::ProgramEnded => "program ended"@,
        Error::PlanNotFound => "plan not found"@,
        Error::PaymentNotActive => "payment not active"@,
        Error::NotRegistered => "not registered"@,
        Error::NotPending => "not pending"@,
        Error::NotAuthorizedOracle => "not authorized oracle"@,
        Error::NotAuthorizedAttester => "not authorized attester"@,
        Error::NoSubscriptionFound => "no subscription found"@,
        Error::NoRewards => "no rewards"@,
        Error::NoPosition => "no position"@,
        Error::NoPendingRewards => "no pending rewards"@,
        Error::NoActiveSubscription => "no active subscription"@,
        Error::MetricsBelowThreshold => "metrics do not exceed baseline thresholds"@,
        Error::MaxPaymentsReached => "max payments reached"@,
        Error::ListingNotActive => "listing not active"@,
        Error::InvalidThreshold => "invalid threshold"@,
        Error::InvalidStateTransition => "invalid state transition"@,
        Error::InvalidScore => "invalid score"@,
        Error::InvalidPrice => "invalid price"@,
        Error::InvalidInterval => "invalid interval"@,
        Error::InvalidDuration => "invalid duration"@,
        Error::InvalidAgeRange => "invalid age range"@,
        Error::InsufficientShares => "insufficient shares"@,
        Error::InsufficientBudget => "insufficient budget"@,
        Error::InsufficientBalance => "insufficient balance"@,
        Error::FeeTooHigh => "fee too high"@,
        Error::ExceedsBudget => "exceeds budget"@,
        Error::DuplicateView => "duplicate view"@,
        Error::DowngradeNotAllowed => "downgrade not allowed while active"@,
        Error::DomainAlreadyRegistered => "domain already registered"@,
        Error::DailyViewLimitReached => "daily view limit reached"@,
        Error::ChainNotSupported => "chain not supported"@,
        Error::CannotRefund => "cannot refund"@,
        Error::CampaignTypeNotFound => "campaign type not found"@,
        Error::CampaignNotRefundable => "campaign not refundable"@,
        Error::CampaignNotActive => "campaign not active"@,
        Error::CampaignExpired => "campaign expired"@,
        Error::BudgetTooLow => "budget too low"@,
        Error::BorrowNotFound => "borrow not found"@,
        Error::AlreadyRegistered => "already registered"@,
        Error::AlreadyLicensed => "already licensed"@,
        Error::AlreadyHasBorrow => "already has borrow"@,
        Error::AlreadyAttested => "already attested"@,
        Error::AlreadyActive => "already active: use change_tier or renew"@,
        Error::AlreadyMember => "already a member"@,
        Error::ContentAlreadyListed => "content already listed - check for exclusive licenses"@,
    }
}

impl Error {
    /// The message with which the contract reports the refusal.
    pub fn message(&self) -> (r: &'static str)
        ensures
            r@ == message_of(*self),
    {
        match self {
            Error::AuthRequired => "authorization required",
            Error::NotInitialized => "not initialized",
            Error::Overflow => "arithmetic overflow",
            Error::DivisionByZero => "division by zero",
            Error::AlreadyInitialized => "already initialized",
            Error::Unauthorized => "unauthorized",
            Error::UnauthorizedRelayer => "unauthorized relayer",
            Error::NotPendingAdmin => "not pending admin",
            Error::NoPendingAdmin => "no pending admin",
            Error::PublisherNotFound => "publisher not found",
            Error::PaymentNotFound => "payment not found",
            Error::CampaignNotFound => "campaign not found",
            Error::SubscriptionNotFound => "subscription not found",
            Error::PublisherNotVerified => "publisher not verified",
            Error::InvalidAmount => "invalid amount",
            Error::TokenNotRegistered => "token not registered",
            Error::SegmentNotFound => "segment not found",
            Error::ListingNotFound => "listing not found",
            Error::LifecycleNotFound => "lifecycle not found",
            Error::InsufficientLiquidity => "insufficient liquidity",
            Error::DepositNotFound => "deposit not found",
            Error::VerificationFailed => "verification failed",
            Error::TooEarly => "too early",
            Error::TokenNotActive => "token not active",
            Error::SameTier => "same tier: use renew instead",
            Error::ReportNotFound => "report not found",
            Error::RateLimitExceeded => "rate limit exceeded",
            Error::ProgramNotFound => "program not found",
            Error::ProgramNotActive => "program not active",
            Error::ProgramEnded => "program ended",
            Error::PlanNotFound => "plan not found",
            Error::PaymentNotActive => "payment not active",
            Error::NotRegistered => "not registered",
            Error::NotPending => "not pending",
            Error::NotAuthorizedOracle => "not authorized oracle",
            Error::NotAuthorizedAttester => "not authorized attester",
            Error::NoSubscriptionFound => "no subscription found",
            Error::NoRewards => "no rewards",
            Error::NoPosition => "no position",
            Error::NoPendingRewards => "no pending rewards",
            Error::NoActiveSubscription => "no active subscription",
            Error::MetricsBelowThreshold => "metrics do not exceed baseline thresholds",
            Error::MaxPaymentsReached => "max payments reached",
            Error::ListingNotActive => "listing not active",
            Error::InvalidThreshold => "invalid threshold",
            Error::InvalidStateTransition => "invalid state transition",
            Error::InvalidScore => "invalid score",
            Error::InvalidPrice => "invalid price",
            Error::InvalidInterval => "invalid interval",
            Error::InvalidDuration => "invalid duration",
            Error::InvalidAgeRange => "invalid age range",
            Error::InsufficientShares => "insufficient shares",
            Error::InsufficientBudget => "insufficient budget",
            Error::InsufficientBalance => "insufficient balance",
            Error::FeeTooHigh => "fee too high",
            Error::ExceedsBudget => "exceeds budget",
            Error::DuplicateView => "duplicate view",
            Error::DowngradeNotAllowed => "downgrade not allowed while active",
            Error::DomainAlreadyRegistered => "domain already registered",
            Error::DailyViewLimitReached => "daily view limit reached",
            Error::ChainNotSupported => "chain not supported",
            Error::CannotRefund => "cannot refund",
            Error::CampaignTypeNotFound => "campaign type not found",
            Error::CampaignNotRefundable => "campaign not refundable",
            Error::CampaignNotActive => "campaign not active",
            Error::CampaignExpired => "campaign expired",
            Error::BudgetTooLow => "budget too low",
            Error::BorrowNotFound => "borrow not found",
            Error::AlreadyRegistered => "already registered",
            Error::AlreadyLicensed => "already licensed",
            Error::AlreadyHasBorrow => "already has borrow",
            Error::AlreadyAttested => "already attested",
            Error::AlreadyActive => "already active: use change_tier or renew",
            Error::AlreadyMember => "already a member",
            Error::ContentAlreadyListed => "content already listed - check for exclusive licenses",
        }
    }
}

/// Integer division that rounds toward zero, as Rust's `/` does on signed
/// integers.
pub open spec fn div_trunc(x: int, d: int) -> int {
    if x == 0 {
        0
    } else if x > 0 && d > 0 {
        x / d
    } else if x < 0 && d < 0 {
        (x * -1) / (d * -1)
    } else if x < 0 {
        ((x * -1) / d) * -1
    } else {
        (x / (d * -1)) * -1
    }
}

/// Dividing by a positive number rounds toward zero: the quotient lies
/// between 0 and the dividend.
pub proof fn lemma_div_trunc_bounds(x: int, d: int)
    requires
        d >= 1,
    ensures
        x >= 0 ==> 0 <= div_trunc(x, d) <= x,
        x < 0 ==> x <= div_trunc(x, d) <= 0,
{
    if x > 0 {
        assert(0 <= x / d <= x) by (nonlinear_arith)
            requires
                x > 0,
                d >= 1,
        ;
    } else if x < 0 {
        assert(0 <= (x * -1) / d <= x * -1) by (nonlinear_arith)
            requires
                x < 0,
                d >= 1,
        ;
    }
}

/// Whether `x` lies in the range of `i128`.
pub open spec fn fits_i128(x: int) -> bool {
    i128::MIN <= x <= i128::MAX
}

/// `x` clamped to the range of `i128`.
pub open spec fn clamp_i128(x: int) -> i128 {
    if x < i128::MIN {
        i128::MIN
    } else if x > i128::MAX {
        i128::MAX
    } else {
        x as i128
    }
}

/// `a - b`, saturating at the bounds of `i128`.
pub fn saturating_sub_i128(a: i128, b: i128) -> (r: i128)
    ensures
        r == clamp_i128(a - b),
{
    match a.checked_sub(b) {
        Some(x) => x,
        None => {
            if b > 0 {
                i128::MIN
            } else {
                i128::MAX
            }
        },
    }
}

/// `a * b`, saturating at `u64::MAX`.
pub fn saturating_mul_u64(a: u64, b: u64) -> (r: u64)
    ensures
        r == (if a * b > u64::MAX {
            u64::MAX as int
        } else {
            a * b
        }),
{
    match a.checked_mul(b) {
        Some(x) => x,
        None => u64::MAX,
    }
}

/// The result of an operation whose refusal is decided by `err`: the error
/// when there is one, else `ok`.
pub open spec fn outcome<T>(err: Option<Error>, ok: T) -> Result<T, Error> {
    match err {
        Some(e) => Err(e),
        None => Ok(ok),
    }
}

/// The sum of `f` over the values of a finite map.
pub open spec fn map_total<K, V>(m: Map<K, V>, f: spec_fn(V) -> int) -> int
    decreases m.dom().len(),
{
    if m.dom().finite() && m.dom().len() > 0 {
        let k = m.dom().choose();
        proof {
            assert(m.dom().contains(k));
            assert(m.remove(k).dom() =~= m.dom().remove(k));
        }
        f(m[k]) + map_total(m.remove(k), f)
    } else {
        0
    }
}

/// Any key of a finite map can be taken out of its total first.
pub proof fn lemma_map_total_remove<K, V>(m: Map<K, V>, f: spec_fn(V) -> int, k: K)
    requires
        m.dom().finite(),
        m.dom().contains(k),
    ensures
        map_total(m, f) == f(m[k]) + map_total(m.remove(k), f),
    decreases m.dom().len(),
{
    let j = m.dom().choose();
    assert(m.remove(j).dom() =~= m.dom().remove(j));
    assert(m.remove(k).dom() =~= m.dom().remove(k));
    if j != k {
        lemma_map_total_remove(m.remove(j), f, k);
        lemma_map_total_remove(m.remove(k), f, j);
        assert(m.remove(j).remove(k) =~= m.remove(k).remove(j));
    }
}

/// Setting the value under one key changes the total by the difference.
pub proof fn lemma_map_total_insert<K, V>(m: Map<K, V>, f: spec_fn(V) -> int, k: K, v: V)
    requires
        m.dom().finite(),
    ensures
        map_total(m.insert(k, v), f) == map_total(m, f) - (if m.dom().contains(k) {
            f(m[k])
        } else {
            0
        }) + f(v),
{
    let m2 = m.insert(k, v);
    lemma_map_total_remove(m2, f, k);
    assert(m2.remove(k) =~= m.remove(k));
    if m.dom().contains(k) {
        lemma_map_total_remove(m, f, k);
    } else {
        assert(m.remove(k) =~= m);
    }
}

/// The total over an empty map is 0.
pub proof fn lemma_map_total_empty<K, V>(m: Map<K, V>, f: spec_fn(V) -> int)
    requires
        m.dom() =~= Set::<K>::empty(),
    ensures
        map_total(m, f) == 0,
{
}

/// Truncating division rounds toward zero: for a positive divisor, the
/// quotient of a non-negative dividend is the largest `q` with `q * d <= x`,
/// and that of a negative dividend the smallest `q` with `q * d >= x`.
pub proof fn lemma_div_trunc_rounds_to_zero(x: int, d: int)
    requires
        d > 0,
    ensures
        x >= 0 ==> div_trunc(x, d) * d <= x < (div_trunc(x, d) + 1) * d,
        x < 0 ==> (div_trunc(x, d) - 1) * d < x <= div_trunc(x, d) * d,
{
    if x > 0 {
        assert((x / d) * d <= x < (x / d + 1) * d) by (nonlinear_arith)
            requires
                x > 0,
                d > 0,
        ;
    } else if x < 0 {
        let y = x * -1;
        assert((y / d) * d <= y < (y / d + 1) * d) by (nonlinear_arith)
            requires
                y > 0,
                d > 0,
        ;
        assert(div_trunc(x, d) == (y / d) * -1);
        assert((div_trunc(x, d) - 1) * d < x <= div_trunc(x, d) * d) by (nonlinear_arith)
            requires
                div_trunc(x, d) == (y / d) * -1,
                (y / d) * d <= y < (y / d + 1) * d,
                y == x * -1,
                d > 0,
        ;
    } else {
        assert(div_trunc(x, d) == 0);
        assert(0 * d <= 0 < (0 + 1) * d) by (nonlinear_arith)
            requires
                d > 0,
        ;
    }
}

} // verus!
