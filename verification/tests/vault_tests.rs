use weak_hands::vault::{
    deposit, initialize, set_parameters, withdraw, DepositEvent, ErrorCode, LockAccount,
    ParametersSetEvent, WithdrawEvent, PRICE_SCALE,
};

const OWNER: [u8; 32] = [7u8; 32];

/// The key whose base58 rendering is the configured feed address.
const FEED_KEY: [u8; 32] = [
    254, 101, 15, 3, 103, 212, 167, 239, 152, 21, 165, 147, 234, 21, 211, 101, 147, 240, 100, 58,
    170, 240, 20, 155, 176, 75, 230, 122, 184, 81, 222, 205,
];

/// A price-feed account whose aggregate is trading at `price`.
fn feed_bytes(price: i64) -> Vec<u8> {
    let mut acc = pyth_sdk_solana::state::SolanaPriceAccount::default();
    acc.magic = pyth_sdk_solana::state::MAGIC;
    acc.ver = pyth_sdk_solana::state::VERSION_2;
    acc.atype = pyth_sdk_solana::state::AccountType::Price as u32;
    acc.expo = -8;
    acc.timestamp = 1;
    acc.agg.price = price;
    acc.agg.conf = 1;
    acc.agg.status = pyth_sdk_solana::state::PriceStatus::Trading;
    acc.agg.pub_slot = 1;
    bytemuck::bytes_of(&acc).to_vec()
}

fn funded_record_with_policy() -> LockAccount {
    let mut la = initialize(OWNER);
    deposit(&mut la, OWNER, 100).unwrap();
    deposit(&mut la, OWNER, 50).unwrap();
    set_parameters(&mut la, OWNER, 1_000_000, 25, 999_999).unwrap();
    la
}

#[test]
fn initialize_starts_empty() {
    let la = initialize(OWNER);
    assert_eq!(la.owner, OWNER);
    assert_eq!(la.amount, 0);
    assert_eq!(la.target_date, 0);
    assert_eq!(la.target_price, 0);
    assert!(!la.parameters_set);
    assert!(!la.withdrawn);
}

#[test]
fn deposits_accumulate() {
    let mut la = initialize(OWNER);
    let e1 = deposit(&mut la, OWNER, 100).unwrap();
    assert_eq!(e1, DepositEvent { user: OWNER, amount: 100, new_total: 100 });
    let e2 = deposit(&mut la, OWNER, 50).unwrap();
    assert_eq!(e2, DepositEvent { user: OWNER, amount: 50, new_total: 150 });
    assert_eq!(la.amount, 150);
}

#[test]
fn zero_deposit_is_a_permitted_no_op() {
    let mut la = initialize(OWNER);
    let e = deposit(&mut la, OWNER, 0).unwrap();
    assert_eq!(e, DepositEvent { user: OWNER, amount: 0, new_total: 0 });
    assert_eq!(la.amount, 0);
}

#[test]
fn set_parameters_normalizes_price() {
    let mut la = initialize(OWNER);
    deposit(&mut la, OWNER, 1).unwrap();
    let e = set_parameters(&mut la, OWNER, 2_000, 25, 1_000).unwrap();
    assert_eq!(la.target_price, 25 * PRICE_SCALE);
    assert_eq!(la.target_price, 2_500_000_000);
    assert_eq!(la.target_date, 2_000);
    assert!(la.parameters_set);
    // The event reports the display-unit price, not the scaled one.
    assert_eq!(e, ParametersSetEvent { user: OWNER, target_date: 2_000, target_price: 25 });
}

#[test]
fn set_parameters_requires_a_deposit_first() {
    let mut la = initialize(OWNER);
    assert_eq!(set_parameters(&mut la, OWNER, 2_000, 25, 1_000), Err(ErrorCode::NoDeposit));
    assert_eq!(la, initialize(OWNER));
}

#[test]
fn set_parameters_rejects_past_or_present_date() {
    let mut la = initialize(OWNER);
    deposit(&mut la, OWNER, 10).unwrap();
    let before = la;
    assert_eq!(set_parameters(&mut la, OWNER, 999, 25, 1_000), Err(ErrorCode::InvalidDate));
    assert_eq!(la, before);
    // The bound is strict: a date equal to the clock is rejected too.
    assert_eq!(set_parameters(&mut la, OWNER, 1_000, 25, 1_000), Err(ErrorCode::InvalidDate));
    assert_eq!(la, before);
    assert!(!la.parameters_set);
}

#[test]
fn set_parameters_rejects_zero_price() {
    let mut la = initialize(OWNER);
    deposit(&mut la, OWNER, 10).unwrap();
    let before = la;
    assert_eq!(set_parameters(&mut la, OWNER, 2_000, 0, 1_000), Err(ErrorCode::InvalidPrice));
    assert_eq!(la, before);
}

#[test]
fn set_parameters_is_callable_at_most_once() {
    let mut la = initialize(OWNER);
    deposit(&mut la, OWNER, 10).unwrap();
    set_parameters(&mut la, OWNER, 2_000, 25, 1_000).unwrap();
    let before = la;
    // A second call fails whatever its arguments, valid or not.
    assert_eq!(
        set_parameters(&mut la, OWNER, 3_000, 40, 1_000),
        Err(ErrorCode::ParametersAlreadySet)
    );
    assert_eq!(la, before);
    assert_eq!(
        set_parameters(&mut la, OWNER, 1, 0, 1_000),
        Err(ErrorCode::ParametersAlreadySet)
    );
    assert_eq!(la, before);
}

#[test]
fn deposits_may_recur_after_the_policy_is_set() {
    let mut la = funded_record_with_policy();
    let e = deposit(&mut la, OWNER, 25).unwrap();
    assert_eq!(e, DepositEvent { user: OWNER, amount: 25, new_total: 175 });
    assert_eq!(la.amount, 175);
    assert!(la.parameters_set);
}

#[test]
fn withdraw_rejects_a_foreign_feed() {
    let mut la = funded_record_with_policy();
    let before = la;
    let mut other_key = FEED_KEY;
    other_key[0] ^= 1;
    let data = feed_bytes(3_000_000_000);
    let r = withdraw(&mut la, OWNER, &other_key, &data, 2_000_000);
    assert_eq!(r, Err(ErrorCode::InvalidPriceFeed));
    assert_eq!(la, before);
    assert_eq!(la.amount, 150);
}

#[test]
fn withdraw_rejects_bytes_that_are_no_price_account() {
    let mut la = funded_record_with_policy();
    let before = la;
    let garbage = vec![0u8; 512];
    let r = withdraw(&mut la, OWNER, &FEED_KEY, &garbage, 2_000_000);
    assert_eq!(r, Err(ErrorCode::PriceFeedError));
    assert_eq!(la, before);
    // A truncated account is rejected the same way.
    let short = feed_bytes(3_000_000_000)[..100].to_vec();
    assert_eq!(withdraw(&mut la, OWNER, &FEED_KEY, &short, 2_000_000), Err(ErrorCode::PriceFeedError));
    assert_eq!(la, before);
}

#[test]
fn withdraw_rejects_a_nonpositive_price() {
    let mut la = funded_record_with_policy();
    let before = la;
    let zero = feed_bytes(0);
    assert_eq!(withdraw(&mut la, OWNER, &FEED_KEY, &zero, 2_000_000), Err(ErrorCode::InvalidPrice));
    let negative = feed_bytes(-5);
    assert_eq!(
        withdraw(&mut la, OWNER, &FEED_KEY, &negative, 2_000_000),
        Err(ErrorCode::InvalidPrice)
    );
    assert_eq!(la, before);
}

#[test]
fn withdraw_requires_a_deposit() {
    let mut la = initialize(OWNER);
    let data = feed_bytes(3_000_000_000);
    assert_eq!(withdraw(&mut la, OWNER, &FEED_KEY, &data, 2_000_000), Err(ErrorCode::NoDeposit));
    assert_eq!(la, initialize(OWNER));
}

#[test]
fn withdraw_requires_the_policy() {
    let mut la = initialize(OWNER);
    deposit(&mut la, OWNER, 10).unwrap();
    let before = la;
    let data = feed_bytes(3_000_000_000);
    assert_eq!(
        withdraw(&mut la, OWNER, &FEED_KEY, &data, 2_000_000),
        Err(ErrorCode::ParametersNotSet)
    );
    assert_eq!(la, before);
}

#[test]
fn withdraw_reports_already_withdrawn() {
    // The balance check precedes the withdrawn check, so this error needs a
    // record that still shows a balance.
    let mut la = LockAccount {
        owner: OWNER,
        amount: 10,
        target_date: 1_000,
        target_price: 2_500_000_000,
        parameters_set: true,
        withdrawn: true,
    };
    let before = la;
    let data = feed_bytes(3_000_000_000);
    assert_eq!(
        withdraw(&mut la, OWNER, &FEED_KEY, &data, 2_000_000),
        Err(ErrorCode::AlreadyWithdrawn)
    );
    assert_eq!(la, before);
}

#[test]
fn unlock_needs_one_of_the_two_conditions() {
    let mut la = funded_record_with_policy();
    let before = la;
    let just_before_date = la.target_date - 1;
    // Time before the date and price below the threshold: locked.
    let low = feed_bytes(2_000_000_000);
    assert_eq!(
        withdraw(&mut la, OWNER, &FEED_KEY, &low, just_before_date),
        Err(ErrorCode::CannotWithdraw)
    );
    assert_eq!(la, before);
    // The price branch alone suffices, inclusively at the threshold.
    let at_threshold = feed_bytes(2_500_000_000);
    let e = withdraw(&mut la, OWNER, &FEED_KEY, &at_threshold, just_before_date).unwrap();
    assert_eq!(e, WithdrawEvent { user: OWNER, amount: 150 });
    assert_eq!(la.amount, 0);
    assert!(la.withdrawn);
}

#[test]
fn unlock_by_time_alone() {
    let mut la = funded_record_with_policy();
    let unlock_date = la.target_date;
    // Price far below the threshold, but the date has arrived (inclusive).
    let low = feed_bytes(1);
    let e = withdraw(&mut la, OWNER, &FEED_KEY, &low, unlock_date).unwrap();
    assert_eq!(e, WithdrawEvent { user: OWNER, amount: 150 });
    assert_eq!(la.amount, 0);
    assert!(la.withdrawn);
}

#[test]
fn withdrawn_record_is_inert() {
    let mut la = funded_record_with_policy();
    let data = feed_bytes(2_500_000_000);
    withdraw(&mut la, OWNER, &FEED_KEY, &data, 0).unwrap();
    let drained = la;
    assert!(drained.withdrawn);
    assert_eq!(drained.amount, 0);
    // Every further operation fails and mutates nothing.
    assert_eq!(deposit(&mut la, OWNER, 5), Err(ErrorCode::AlreadyWithdrawn));
    assert_eq!(la, drained);
    assert_eq!(set_parameters(&mut la, OWNER, 9_999_999, 1, 0), Err(ErrorCode::NoDeposit));
    assert_eq!(la, drained);
    assert_eq!(withdraw(&mut la, OWNER, &FEED_KEY, &data, 9_999_999), Err(ErrorCode::NoDeposit));
    assert_eq!(la, drained);
}

#[test]
fn full_lifetime_scenario() {
    let mut la = initialize(OWNER);
    deposit(&mut la, OWNER, 100).unwrap();
    deposit(&mut la, OWNER, 50).unwrap();
    assert_eq!(la.amount, 150);
    let now = 500_000;
    set_parameters(&mut la, OWNER, now + 3_600, 25, now).unwrap();
    assert!(la.parameters_set);
    assert_eq!(la.target_price, 2_500_000_000);
    let low = feed_bytes(2_000_000_000);
    assert_eq!(withdraw(&mut la, OWNER, &FEED_KEY, &low, now), Err(ErrorCode::CannotWithdraw));
    assert_eq!(la.amount, 150);
    let enough = feed_bytes(2_500_000_000);
    let e = withdraw(&mut la, OWNER, &FEED_KEY, &enough, now).unwrap();
    assert_eq!(e, WithdrawEvent { user: OWNER, amount: 150 });
    assert_eq!(la.amount, 0);
    assert!(la.withdrawn);
}
