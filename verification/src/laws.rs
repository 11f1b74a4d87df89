//! Laws of the vault state machine, proved over the spec transitions that
//! the executable operations are verified against.

use vstd::prelude::*;

verus! {

use crate::vault::{
    spec_deposit, spec_initialize, spec_set_parameters, spec_unlocked, spec_withdraw, ErrorCode,
    LockAccount, WithdrawEvent, PRICE_SCALE,
};

/// The shape every record produced by the state machine has: a drained
/// record holds nothing and had its policy set, and a live record with a
/// policy set holds a balance.
pub open spec fn wf(la: LockAccount) -> bool {
    &&& la.withdrawn ==> la.amount == 0 && la.parameters_set
    &&& la.parameters_set && !la.withdrawn ==> la.amount > 0
}

/// A fresh record is well formed.
pub proof fn lemma_wf_initialize(owner: [u8; 32])
    ensures
        wf(spec_initialize(owner)),
{
}

/// A deposit that does not overflow the balance keeps the record well
/// formed.
pub proof fn lemma_wf_deposit(la: LockAccount, user: [u8; 32], amount: u64)
    requires
        wf(la),
        !la.withdrawn ==> la.amount + amount <= u64::MAX,
    ensures
        wf(spec_deposit(la, user, amount).0),
{
}

/// Fixing the policy keeps the record well formed.
pub proof fn lemma_wf_set_parameters(
    la: LockAccount,
    user: [u8; 32],
    target_date: i64,
    target_price_usd: u64,
    now: i64,
)
    requires
        wf(la),
    ensures
        wf(spec_set_parameters(la, user, target_date, target_price_usd, now).0),
{
}

/// A withdrawal keeps the record well formed.
pub proof fn lemma_wf_withdraw(
    la: LockAccount,
    user: [u8; 32],
    feed_ok: bool,
    oracle: Option<i64>,
    now: i64,
)
    requires
        wf(la),
    ensures
        wf(spec_withdraw(la, user, feed_ok, oracle, now).0),
{
}

/// Once a record is drained it is inert: every operation on it fails, with
/// the error the check order dictates, and leaves it exactly as it was.
pub proof fn lemma_withdrawn_record_is_inert(
    la: LockAccount,
    user: [u8; 32],
    amount: u64,
    target_date: i64,
    target_price_usd: u64,
    feed_ok: bool,
    oracle: Option<i64>,
    now: i64,
)
    requires
        wf(la),
        la.withdrawn,
    ensures
        spec_deposit(la, user, amount).0 == la,
        spec_deposit(la, user, amount).1 == Err::<crate::vault::DepositEvent, ErrorCode>(
            ErrorCode::AlreadyWithdrawn,
        ),
        spec_set_parameters(la, user, target_date, target_price_usd, now).0 == la,
        spec_set_parameters(la, user, target_date, target_price_usd, now).1 is Err,
        spec_withdraw(la, user, feed_ok, oracle, now).0 == la,
        spec_withdraw(la, user, feed_ok, oracle, now).1 is Err,
{
}

/// The policy can be fixed at most once: with a policy already set, a
/// second call fails whatever its arguments, and on a record that is not
/// yet drained it reports exactly ParametersAlreadySet.
pub proof fn lemma_set_parameters_at_most_once(
    la: LockAccount,
    user: [u8; 32],
    target_date: i64,
    target_price_usd: u64,
    now: i64,
)
    requires
        wf(la),
        la.parameters_set,
    ensures
        spec_set_parameters(la, user, target_date, target_price_usd, now).0 == la,
        spec_set_parameters(la, user, target_date, target_price_usd, now).1 is Err,
        !la.withdrawn ==> spec_set_parameters(la, user, target_date, target_price_usd, now).1
            == Err::<crate::vault::ParametersSetEvent, ErrorCode>(ErrorCode::ParametersAlreadySet),
{
}

/// Unlock is a pure disjunction. On a funded, policy-bearing record that
/// was not drained, and a valid observation from the configured feed, the
/// withdrawal succeeds exactly when the clock has reached the target date
/// or the price has reached the threshold; otherwise it fails with
/// CannotWithdraw and changes nothing.
pub proof fn lemma_unlock_is_pure_or(la: LockAccount, user: [u8; 32], price: i64, now: i64)
    requires
        la.amount > 0,
        la.parameters_set,
        !la.withdrawn,
        price > 0,
    ensures
        spec_withdraw(la, user, true, Some(price), now).1 is Ok <==> spec_unlocked(
            la,
            price,
            now,
        ),
        spec_unlocked(la, price, now) <==> (now >= la.target_date || price as u64
            >= la.target_price),
        !spec_unlocked(la, price, now) ==> spec_withdraw(la, user, true, Some(price), now).0 == la
            && spec_withdraw(la, user, true, Some(price), now).1 == Err::<
            WithdrawEvent,
            ErrorCode,
        >(ErrorCode::CannotWithdraw),
        spec_unlocked(la, price, now) ==> spec_withdraw(la, user, true, Some(price), now).1 == Ok::<
            WithdrawEvent,
            ErrorCode,
        >(WithdrawEvent { user, amount: la.amount }),
{
}

/// Price normalization: fixing the policy at a display-unit price stores
/// the threshold scaled by `PRICE_SCALE`, and an oracle reading of exactly
/// that scaled value already satisfies the price branch of the unlock
/// condition (the comparison is inclusive).
pub proof fn lemma_price_normalization(
    la: LockAccount,
    user: [u8; 32],
    target_date: i64,
    target_price_usd: u64,
    now: i64,
)
    requires
        la.amount > 0,
        !la.parameters_set,
        target_date > now,
        target_price_usd > 0,
        target_price_usd * PRICE_SCALE <= i64::MAX,
    ensures
        spec_set_parameters(la, user, target_date, target_price_usd, now).0.target_price
            == target_price_usd * PRICE_SCALE,
        spec_unlocked(
            spec_set_parameters(la, user, target_date, target_price_usd, now).0,
            (target_price_usd * PRICE_SCALE) as i64,
            now,
        ),
{
}

/// One step of a record's observed life: an operation together with what
/// the environment handed it.
pub enum VaultOp {
    Deposit { user: [u8; 32], amount: u64 },
    SetParameters { user: [u8; 32], target_date: i64, target_price_usd: u64, now: i64 },
    Withdraw { user: [u8; 32], feed_ok: bool, oracle: Option<i64>, now: i64 },
}

/// The record after one operation, successful or not.
pub open spec fn step_state(la: LockAccount, op: VaultOp) -> LockAccount {
    match op {
        VaultOp::Deposit { user, amount } => spec_deposit(la, user, amount).0,
        VaultOp::SetParameters { user, target_date, target_price_usd, now } => spec_set_parameters(
            la,
            user,
            target_date,
            target_price_usd,
            now,
        ).0,
        VaultOp::Withdraw { user, feed_ok, oracle, now } => spec_withdraw(
            la,
            user,
            feed_ok,
            oracle,
            now,
        ).0,
    }
}

/// The record after a whole sequence of operations.
pub open spec fn run(la: LockAccount, ops: Seq<VaultOp>) -> LockAccount
    decreases ops.len(),
{
    if ops.len() == 0 {
        la
    } else {
        run(step_state(la, ops[0]), ops.subrange(1, ops.len() as int))
    }
}

/// The sum of the amounts credited by the deposits that are accepted along
/// `ops`, starting from `la`.
pub open spec fn accepted_deposits(la: LockAccount, ops: Seq<VaultOp>) -> int
    decreases ops.len(),
{
    if ops.len() == 0 {
        0
    } else {
        let credit: int = match ops[0] {
            VaultOp::Deposit { amount, .. } => if la.withdrawn {
                0
            } else {
                amount as int
            },
            _ => 0,
        };
        credit + accepted_deposits(step_state(la, ops[0]), ops.subrange(1, ops.len() as int))
    }
}

/// No accepted deposit along `ops` overflows the balance.
pub open spec fn deposits_fit(la: LockAccount, ops: Seq<VaultOp>) -> bool
    decreases ops.len(),
{
    ops.len() == 0 || {
        &&& match ops[0] {
            VaultOp::Deposit { amount, .. } => la.withdrawn || la.amount + amount <= u64::MAX,
            _ => true,
        }
        &&& deposits_fit(step_state(la, ops[0]), ops.subrange(1, ops.len() as int))
    }
}

/// Well-formedness is an invariant of every run whose deposits fit.
pub proof fn lemma_wf_run(la: LockAccount, ops: Seq<VaultOp>)
    requires
        wf(la),
        deposits_fit(la, ops),
    ensures
        wf(run(la, ops)),
    decreases ops.len(),
{
    if ops.len() != 0 {
        match ops[0] {
            VaultOp::Deposit { user, amount } => lemma_wf_deposit(la, user, amount),
            VaultOp::SetParameters { user, target_date, target_price_usd, now } => {
                lemma_wf_set_parameters(la, user, target_date, target_price_usd, now);
            },
            VaultOp::Withdraw { user, feed_ok, oracle, now } => {
                lemma_wf_withdraw(la, user, feed_ok, oracle, now);
            },
        }
        lemma_wf_run(step_state(la, ops[0]), ops.subrange(1, ops.len() as int));
    }
}

/// A drained record stays exactly as it is under every further sequence of
/// operations: nothing can revive or mutate it.
pub proof fn lemma_inert_run(la: LockAccount, ops: Seq<VaultOp>)
    requires
        wf(la),
        la.withdrawn,
    ensures
        run(la, ops) == la,
    decreases ops.len(),
{
    if ops.len() != 0 {
        assert(step_state(la, ops[0]) == la);
        lemma_inert_run(la, ops.subrange(1, ops.len() as int));
    }
}

/// While a record has not been drained, its balance is its starting
/// balance plus exactly the deposits accepted along the way: no funds
/// appear or vanish.
pub proof fn lemma_balance_tracks_deposits(la: LockAccount, ops: Seq<VaultOp>)
    requires
        wf(la),
        !la.withdrawn,
        deposits_fit(la, ops),
    ensures
        !run(la, ops).withdrawn ==> run(la, ops).amount == la.amount + accepted_deposits(la, ops),
    decreases ops.len(),
{
    if ops.len() != 0 {
        let la1 = step_state(la, ops[0]);
        let rest = ops.subrange(1, ops.len() as int);
        match ops[0] {
            VaultOp::Deposit { user, amount } => lemma_wf_deposit(la, user, amount),
            VaultOp::SetParameters { user, target_date, target_price_usd, now } => {
                lemma_wf_set_parameters(la, user, target_date, target_price_usd, now);
            },
            VaultOp::Withdraw { user, feed_ok, oracle, now } => {
                lemma_wf_withdraw(la, user, feed_ok, oracle, now);
            },
        }
        if la1.withdrawn {
            lemma_inert_run(la1, rest);
        } else {
            lemma_balance_tracks_deposits(la1, rest);
        }
    }
}

/// Conservation over a whole lifetime: when a withdrawal finally succeeds
/// on a record created by `initialize`, the amount it reports for transfer
/// is exactly the sum of all accepted deposits.
pub proof fn lemma_withdraw_pays_out_all_deposits(
    owner: [u8; 32],
    ops: Seq<VaultOp>,
    user: [u8; 32],
    feed_ok: bool,
    oracle: Option<i64>,
    now: i64,
)
    requires
        deposits_fit(spec_initialize(owner), ops),
        spec_withdraw(run(spec_initialize(owner), ops), user, feed_ok, oracle, now).1 is Ok,
    ensures
        spec_withdraw(run(spec_initialize(owner), ops), user, feed_ok, oracle, now).1->Ok_0.amount
            == accepted_deposits(spec_initialize(owner), ops),
{
    let la0 = spec_initialize(owner);
    lemma_balance_tracks_deposits(la0, ops);
}

} // verus!
