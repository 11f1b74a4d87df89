//! The vault record and its state machine.
//!
//! A `LockAccount` is created empty, accumulates a balance through deposits,
//! has its unlock policy fixed exactly once by `set_parameters`, and is
//! drained exactly once by `withdraw`, after which it is permanently inert.
//! Each operation validates fully before it mutates: a failed operation
//! returns the record exactly as it was.

use vstd::prelude::*;

verus! {

/// Factor between a price in display units (whole currency units) and the
/// oracle's fixed-point representation with eight fractional digits.
pub const PRICE_SCALE: u64 = 100_000_000;

/// The persisted state of one vault.
#[derive(Clone, Copy, Debug, PartialEq, Eq)]
pub struct LockAccount {
    /// Identity of the sole depositor and withdrawer; set at creation.
    pub owner: [u8; 32],
    /// Custody balance. Increased only by deposits, zeroed only by withdrawal.
    pub amount: u64,
    /// Unlock timestamp (epoch seconds); 0 until the policy is set.
    pub target_date: i64,
    /// Unlock price threshold in the oracle's fixed-point unit; 0 until the
    /// policy is set.
    pub target_price: u64,
    /// True once `set_parameters` has succeeded; never reset.
    pub parameters_set: bool,
    /// True once `withdraw` has succeeded; the record is then inert.
    pub withdrawn: bool,
}

/// Why an operation was refused. Every failure leaves the record unchanged.
#[derive(Clone, Copy, Debug, PartialEq, Eq)]
pub enum ErrorCode {
    /// The record holds no balance.
    NoDeposit,
    /// The unlock policy was already fixed.
    ParametersAlreadySet,
    /// The unlock policy has not been fixed yet.
    ParametersNotSet,
    /// The requested unlock date is not in the future.
    InvalidDate,
    /// The price threshold, or the observed price, is not positive.
    InvalidPrice,
    /// The record was already drained.
    AlreadyWithdrawn,
    /// Neither unlock condition holds yet.
    CannotWithdraw,
    /// The oracle account is not the configured price feed.
    InvalidPriceFeed,
    /// The oracle account did not parse as a price feed.
    PriceFeedError,
}

/// Notification of a successful deposit.
#[derive(Clone, Copy, Debug, PartialEq, Eq)]
pub struct DepositEvent {
    pub user: [u8; 32],
    pub amount: u64,
    pub new_total: u64,
}

/// Notification of a successfully fixed unlock policy. `target_price` is in
/// display units, as supplied by the caller, not the scaled threshold.
#[derive(Clone, Copy, Debug, PartialEq, Eq)]
pub struct ParametersSetEvent {
    pub user: [u8; 32],
    pub target_date: i64,
    pub target_price: u64,
}

/// Notification of a successful withdrawal of the whole balance.
#[derive(Clone, Copy, Debug, PartialEq, Eq)]
pub struct WithdrawEvent {
    pub user: [u8; 32],
    pub amount: u64,
}

/// The record a fresh vault starts from: zero balance, no policy, not
/// withdrawn.
pub open spec fn spec_initialize(owner: [u8; 32]) -> LockAccount {
    LockAccount {
        owner,
        amount: 0,
        target_date: 0,
        target_price: 0,
        parameters_set: false,
        withdrawn: false,
    }
}

/// What a deposit does: refused iff the record was drained; otherwise the
/// balance grows by `amount` and the new total is reported.
pub open spec fn spec_deposit(la: LockAccount, user: [u8; 32], amount: u64) -> (
    LockAccount,
    Result<DepositEvent, ErrorCode>,
) {
    if la.withdrawn {
        (la, Err(ErrorCode::AlreadyWithdrawn))
    } else {
        let new_total = (la.amount + amount) as u64;
        (
            LockAccount { amount: new_total, ..la },
            Ok(DepositEvent { user, amount, new_total }),
        )
    }
}

/// What fixing the policy does. The checks run in this order and the first
/// failing one is reported: a balance must exist, the policy must not be set
/// yet, the date must be strictly in the future, the price must be positive.
/// On success the threshold is stored scaled to the oracle's fixed-point
/// unit, while the event carries the display-unit price.
pub open spec fn spec_set_parameters(
    la: LockAccount,
    user: [u8; 32],
    target_date: i64,
    target_price_usd: u64,
    now: i64,
) -> (LockAccount, Result<ParametersSetEvent, ErrorCode>) {
    if la.amount == 0 {
        (la, Err(ErrorCode::NoDeposit))
    } else if la.parameters_set {
        (la, Err(ErrorCode::ParametersAlreadySet))
    } else if target_date <= now {
        (la, Err(ErrorCode::InvalidDate))
    } else if target_price_usd == 0 {
        (la, Err(ErrorCode::InvalidPrice))
    } else {
        (
            LockAccount {
                target_date,
                target_price: (target_price_usd * PRICE_SCALE) as u64,
                parameters_set: true,
                ..la
            },
            Ok(ParametersSetEvent { user, target_date, target_price: target_price_usd }),
        )
    }
}

/// Whether the unlock condition holds: the clock has reached the target date
/// or the observed price has reached the threshold (inclusive on both sides,
/// and a pure disjunction).
pub open spec fn spec_unlocked(la: LockAccount, price: i64, now: i64) -> bool {
    now >= la.target_date || price as u64 >= la.target_price
}

/// What a withdrawal does, given what was observed outside the record:
/// whether the supplied oracle account is the configured feed, the parsed
/// oracle price if the account parsed as one, and the current time. The
/// checks run in this order: feed identity, feed parse, positive price,
/// balance present, policy set, not yet withdrawn, unlock condition. On
/// success the whole balance is reported for transfer and the record becomes
/// permanently inert.
pub open spec fn spec_withdraw(
    la: LockAccount,
    user: [u8; 32],
    feed_ok: bool,
    oracle: Option<i64>,
    now: i64,
) -> (LockAccount, Result<WithdrawEvent, ErrorCode>) {
    if !feed_ok {
        (la, Err(ErrorCode::InvalidPriceFeed))
    } else if oracle is None {
        (la, Err(ErrorCode::PriceFeedError))
    } else if oracle->0 <= 0 {
        (la, Err(ErrorCode::InvalidPrice))
    } else if la.amount == 0 {
        (la, Err(ErrorCode::NoDeposit))
    } else if !la.parameters_set {
        (la, Err(ErrorCode::ParametersNotSet))
    } else if la.withdrawn {
        (la, Err(ErrorCode::AlreadyWithdrawn))
    } else if !spec_unlocked(la, oracle->0, now) {
        (la, Err(ErrorCode::CannotWithdraw))
    } else {
        (
            LockAccount { amount: 0, withdrawn: true, ..la },
            Ok(WithdrawEvent { user, amount: la.amount }),
        )
    }
}

/// Create the record for a fresh vault owned by `owner`.
///
/// Allocation of the record's slot, and any conflict with an existing one,
/// is the caller's concern; the record itself always starts empty.
pub fn initialize(owner: [u8; 32]) -> (r: LockAccount)
    ensures
        r == spec_initialize(owner),
{
    LockAccount {
        owner,
        amount: 0,
        target_date: 0,
        target_price: 0,
        parameters_set: false,
        withdrawn: false,
    }
}

/// Record a deposit of `amount` by `user`.
///
/// The caller moves the funds into custody first and calls this only after
/// that transfer succeeded; refused deposits leave the record untouched.
/// A zero amount is accepted and reported like any other.
pub fn deposit(lock_account: &mut LockAccount, user: [u8; 32], amount: u64) -> (r: Result<
    DepositEvent,
    ErrorCode,
>)
    requires
        !old(lock_account).withdrawn ==> old(lock_account).amount + amount <= u64::MAX,
    ensures
        *final(lock_account) == spec_deposit(*old(lock_account), user, amount).0,
        r == spec_deposit(*old(lock_account), user, amount).1,
        r is Ok <==> !old(lock_account).withdrawn,
        r is Err ==> *final(lock_account) == *old(lock_account),
{
    if lock_account.withdrawn {
        return Err(ErrorCode::AlreadyWithdrawn);
    }
    lock_account.amount = lock_account.amount + amount;
    Ok(DepositEvent { user, amount, new_total: lock_account.amount })
}

/// Fix the unlock policy: a target date and a price threshold in display
/// units, normalized to the oracle's fixed-point unit for storage.
///
/// `current_time` is the clock observed by the caller at the moment of the
/// call. The policy can be fixed at most once per record.
pub fn set_parameters(
    lock_account: &mut LockAccount,
    user: [u8; 32],
    target_date: i64,
    target_price_usd: u64,
    current_time: i64,
) -> (r: Result<ParametersSetEvent, ErrorCode>)
    requires
        (old(lock_account).amount > 0 && !old(lock_account).parameters_set && target_date
            > current_time && target_price_usd > 0) ==> target_price_usd * PRICE_SCALE <= u64::MAX,
    ensures
        *final(lock_account) == spec_set_parameters(
            *old(lock_account),
            user,
            target_date,
            target_price_usd,
            current_time,
        ).0,
        r == spec_set_parameters(
            *old(lock_account),
            user,
            target_date,
            target_price_usd,
            current_time,
        ).1,
        r is Ok <==> (old(lock_account).amount > 0 && !old(lock_account).parameters_set
            && target_date > current_time && target_price_usd > 0),
        r is Err ==> *final(lock_account) == *old(lock_account),
{
    if lock_account.amount == 0 {
        return Err(ErrorCode::NoDeposit);
    }
    if lock_account.parameters_set {
        return Err(ErrorCode::ParametersAlreadySet);
    }
    if target_date <= current_time {
        return Err(ErrorCode::InvalidDate);
    }
    if target_price_usd == 0 {
        return Err(ErrorCode::InvalidPrice);
    }
    lock_account.target_date = target_date;
    lock_account.target_price = target_price_usd * PRICE_SCALE;
    lock_account.parameters_set = true;
    Ok(ParametersSetEvent { user, target_date, target_price: target_price_usd })
}

/// Drain the vault, if its unlock condition holds.
///
/// `price_feed_key` and `price_feed_data` are the key and raw bytes of the
/// oracle account supplied by the caller; the key must render to the
/// configured feed address, and the bytes are parsed by the oracle's SDK.
/// The observed price is deliberately taken without a staleness or
/// confidence check, so a stale or low-confidence reading can unlock the
/// vault early; callers accept that risk. `current_time` is the clock
/// observed at the moment of the call.
///
/// On success the record is marked withdrawn with a zero balance before the
/// reported amount is handed to the caller for transfer, so a re-entrant
/// call can never drain twice.
pub fn withdraw(
    lock_account: &mut LockAccount,
    user: [u8; 32],
    price_feed_key: &[u8; 32],
    price_feed_data: &[u8],
    current_time: i64,
) -> (r: Result<WithdrawEvent, ErrorCode>)
    ensures
        *final(lock_account) == spec_withdraw(
            *old(lock_account),
            user,
            crate::oracle::feed_key_ok(price_feed_key@),
            crate::oracle::pyth_unchecked_price(price_feed_data@),
            current_time,
        ).0,
        r == spec_withdraw(
            *old(lock_account),
            user,
            crate::oracle::feed_key_ok(price_feed_key@),
            crate::oracle::pyth_unchecked_price(price_feed_data@),
            current_time,
        ).1,
        r is Err ==> *final(lock_account) == *old(lock_account),
        r is Ok ==> final(lock_account).withdrawn && final(lock_account).amount == 0
            && r->Ok_0.amount == old(lock_account).amount,
        r is Ok <==> ({
            let price = crate::oracle::pyth_unchecked_price(price_feed_data@);
            &&& crate::oracle::feed_key_ok(price_feed_key@)
            &&& price is Some
            &&& price->0 > 0
            &&& old(lock_account).amount > 0
            &&& old(lock_account).parameters_set
            &&& !old(lock_account).withdrawn
            &&& spec_unlocked(*old(lock_account), price->0, current_time)
        }),
{
    if !crate::oracle::feed_key_matches(price_feed_key) {
        return Err(ErrorCode::InvalidPriceFeed);
    }
    let price: i64 = match crate::oracle::load_unchecked_price(price_feed_data) {
        Some(p) => p,
        None => {
            return Err(ErrorCode::PriceFeedError);
        },
    };
    if price <= 0 {
        return Err(ErrorCode::InvalidPrice);
    }
    if lock_account.amount == 0 {
        return Err(ErrorCode::NoDeposit);
    }
    if !lock_account.parameters_set {
        return Err(ErrorCode::ParametersNotSet);
    }
    if lock_account.withdrawn {
        return Err(ErrorCode::AlreadyWithdrawn);
    }
    if !(current_time >= lock_account.target_date || price as u64 >= lock_account.target_price) {
        return Err(ErrorCode::CannotWithdraw);
    }
    let amount = lock_account.amount;
    lock_account.withdrawn = true;
    lock_account.amount = 0;
    Ok(WithdrawEvent { user, amount })
}

} // verus!
