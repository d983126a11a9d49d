use anchor_token_staking::{pending_rewards, ErrorCode, REWARDS_RATE_PER_SECOND_PER_STAKE};

#[test]
fn rate_is_one_unit_per_second_per_staked_unit() {
    assert_eq!(REWARDS_RATE_PER_SECOND_PER_STAKE, 1);
}

#[test]
fn pending_rewards_is_elapsed_times_rate_times_stake() {
    assert_eq!(pending_rewards(100, 1, 11), Ok(1000));
    assert_eq!(pending_rewards(150, 10, 15), Ok(750));
    assert_eq!(pending_rewards(7, 1_700_000_000, 1_700_000_003), Ok(21));
    assert_eq!(pending_rewards(1, 5, 6), Ok(1));
}

#[test]
fn pending_rewards_without_open_window_is_zero() {
    assert_eq!(pending_rewards(100, 0, 0), Ok(0));
    assert_eq!(pending_rewards(100, 0, 1_000_000), Ok(0));
    assert_eq!(pending_rewards(u64::MAX, 0, i64::MAX), Ok(0));
    assert_eq!(pending_rewards(u64::MAX, 0, i64::MIN), Ok(0));
    assert_eq!(pending_rewards(0, 0, -5), Ok(0));
}

#[test]
fn pending_rewards_of_zero_elapsed_time_is_zero() {
    assert_eq!(pending_rewards(100, 42, 42), Ok(0));
    assert_eq!(pending_rewards(u64::MAX, i64::MAX, i64::MAX), Ok(0));
}

#[test]
fn pending_rewards_of_nothing_staked_is_zero() {
    assert_eq!(pending_rewards(0, 1, 1_000_000), Ok(0));
    assert_eq!(pending_rewards(0, i64::MIN, i64::MAX), Ok(0));
}

#[test]
fn pending_rewards_refuses_a_clock_behind_the_window() {
    assert_eq!(pending_rewards(100, 10, 9), Err(ErrorCode::InvalidTimestamp));
    assert_eq!(pending_rewards(0, 10, 9), Err(ErrorCode::InvalidTimestamp));
    assert_eq!(pending_rewards(100, -3, -4), Err(ErrorCode::InvalidTimestamp));
    assert_eq!(pending_rewards(100, i64::MAX, i64::MIN), Err(ErrorCode::InvalidTimestamp));
}

#[test]
fn pending_rewards_accepts_negative_times_in_order() {
    assert_eq!(pending_rewards(3, -10, -4), Ok(18));
    assert_eq!(pending_rewards(2, -1, 1), Ok(4));
}

#[test]
fn pending_rewards_reaches_the_largest_value() {
    assert_eq!(pending_rewards(u64::MAX, 1, 2), Ok(u64::MAX));
    assert_eq!(pending_rewards(1, i64::MIN, i64::MAX), Ok(u64::MAX));
    assert_eq!(pending_rewards(1 << 32, 1, 1 + (1 << 31)), Ok(1 << 63));
}

#[test]
fn pending_rewards_refuses_what_does_not_fit() {
    assert_eq!(pending_rewards(u64::MAX, 1, 3), Err(ErrorCode::ArithmeticOverflow));
    assert_eq!(pending_rewards(2, i64::MIN, i64::MAX), Err(ErrorCode::ArithmeticOverflow));
    assert_eq!(pending_rewards(1 << 32, 1, 1 + (1 << 32)), Err(ErrorCode::ArithmeticOverflow));
    assert_eq!(pending_rewards(u64::MAX, i64::MIN, i64::MAX), Err(ErrorCode::ArithmeticOverflow));
}
