use anchor_token_staking::{initialize_stake_account, ErrorCode, Identity, StakeAccount};

fn owner_of_account() -> Identity {
    Identity::new([7u8; 32])
}

#[test]
fn identity_keeps_its_bytes() {
    let mut bytes: [u8; 32] = [0u8; 32];
    bytes[0] = 1;
    bytes[31] = 255;
    let id = Identity::new(bytes);
    assert_eq!(id.to_bytes(), bytes);
    assert_eq!(id.bytes, bytes);
}

#[test]
fn identities_are_equal_when_all_bytes_agree() {
    let a = Identity::new([1u8; 32]);
    let b = Identity::new([1u8; 32]);
    assert!(a == b);
    assert!(!(a != b));
}

#[test]
fn identities_differ_when_any_byte_differs() {
    let base = Identity::new([1u8; 32]);
    let mut first: [u8; 32] = [1u8; 32];
    first[0] = 2;
    let mut last: [u8; 32] = [1u8; 32];
    last[31] = 0;
    let mut middle: [u8; 32] = [1u8; 32];
    middle[16] = 9;
    assert!(base != Identity::new(first));
    assert!(base != Identity::new(last));
    assert!(base != Identity::new(middle));
    assert!(!(base == Identity::new(last)));
}

#[test]
fn new_account_is_all_zero() {
    let account = StakeAccount::new(owner_of_account());
    assert!(account.authority() == owner_of_account());
    assert_eq!(account.staked_amount(), 0);
    assert_eq!(account.stake_start_time(), 0);
    assert_eq!(account.unclaimed_amount(), 0);
}

#[test]
fn initialize_stake_account_sets_defaults() {
    let account = initialize_stake_account(owner_of_account());
    assert!(account.authority() == owner_of_account());
    assert_eq!(account.staked_amount(), 0);
    assert_eq!(account.stake_start_time(), 0);
    assert_eq!(account.unclaimed_amount(), 0);
    assert_eq!(account, StakeAccount::new(owner_of_account()));
}

#[test]
fn from_parts_keeps_the_fields() {
    let account = StakeAccount::from_parts(owner_of_account(), 150, 10, 1000).unwrap();
    assert!(account.authority() == owner_of_account());
    assert_eq!(account.staked_amount(), 150);
    assert_eq!(account.stake_start_time(), 10);
    assert_eq!(account.unclaimed_amount(), 1000);
}

#[test]
fn from_parts_accepts_a_closed_position_with_rewards() {
    let account = StakeAccount::from_parts(owner_of_account(), 0, 0, 77).unwrap();
    assert_eq!(account.staked_amount(), 0);
    assert_eq!(account.stake_start_time(), 0);
    assert_eq!(account.unclaimed_amount(), 77);
}

#[test]
fn from_parts_accepts_principal_without_window() {
    let account = StakeAccount::from_parts(owner_of_account(), 5, 0, 0).unwrap();
    assert_eq!(account.staked_amount(), 5);
    assert_eq!(account.stake_start_time(), 0);
}

#[test]
fn from_parts_refuses_a_window_without_principal() {
    assert!(StakeAccount::from_parts(owner_of_account(), 0, 10, 0).is_none());
    assert!(StakeAccount::from_parts(owner_of_account(), 0, -1, 5).is_none());
    assert!(StakeAccount::from_parts(owner_of_account(), 0, i64::MAX, 0).is_none());
}

#[test]
fn calculate_pending_rewards_uses_the_account_fields() {
    let account = StakeAccount::from_parts(owner_of_account(), 150, 10, 1000).unwrap();
    assert_eq!(account.calculate_pending_rewards(15), Ok(750));
    assert_eq!(account.calculate_pending_rewards(10), Ok(0));
    assert_eq!(account.calculate_pending_rewards(9), Err(ErrorCode::InvalidTimestamp));
}

#[test]
fn calculate_pending_rewards_is_zero_without_window() {
    let fresh = StakeAccount::new(owner_of_account());
    assert_eq!(fresh.calculate_pending_rewards(1_000_000), Ok(0));
    let dormant = StakeAccount::from_parts(owner_of_account(), 500, 0, 3).unwrap();
    assert_eq!(dormant.calculate_pending_rewards(1_000_000), Ok(0));
    assert_eq!(dormant.calculate_pending_rewards(-1), Ok(0));
}

#[test]
fn calculate_pending_rewards_reports_overflow() {
    let account = StakeAccount::from_parts(owner_of_account(), u64::MAX, 1, 0).unwrap();
    assert_eq!(account.calculate_pending_rewards(2), Ok(u64::MAX));
    assert_eq!(account.calculate_pending_rewards(3), Err(ErrorCode::ArithmeticOverflow));
}

#[test]
fn settle_adds_pending_to_unclaimed() {
    let account = StakeAccount::from_parts(owner_of_account(), 150, 10, 1000).unwrap();
    assert_eq!(account.settle(15), Ok(1750));
    assert_eq!(account.settle(10), Ok(1000));
}

#[test]
fn settle_reports_overflow_of_the_sum() {
    let account = StakeAccount::from_parts(owner_of_account(), 1, 10, u64::MAX - 4).unwrap();
    assert_eq!(account.settle(14), Ok(u64::MAX));
    assert_eq!(account.settle(15), Err(ErrorCode::ArithmeticOverflow));
}

#[test]
fn settle_refuses_a_clock_behind_the_window() {
    let account = StakeAccount::from_parts(owner_of_account(), 1, 10, 0).unwrap();
    assert_eq!(account.settle(9), Err(ErrorCode::InvalidTimestamp));
}

#[test]
fn error_messages_name_the_refusal() {
    assert_eq!(ErrorCode::InsufficientFundsStaked.message(), "Error: Insufficient funds staked");
    assert_eq!(ErrorCode::StakeIsLocked.message(), "Error: Stake is still locked");
    assert_eq!(ErrorCode::Unauthorized.message(), "Error: Caller is not the account authority");
    assert_eq!(ErrorCode::TransferFailed.message(), "Error: Token transfer failed");
    assert_eq!(ErrorCode::ArithmeticOverflow.message(), "Error: Arithmetic overflow");
    assert_eq!(
        ErrorCode::InvalidTimestamp.message(),
        "Error: Clock is behind the stake start time"
    );
    assert_eq!(ErrorCode::InvalidAmount.message(), "Error: Amount must be greater than zero");
}
