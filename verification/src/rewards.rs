//! The reward accrual formula.

use vstd::prelude::*;
use crate::error::ErrorCode;

verus! {

/// Reward units that one staked unit earns per second.
pub const REWARDS_RATE_PER_SECOND_PER_STAKE: u64 = 1;

/// The reward that `staked_amount` has earned between `stake_start_time` and
/// `current_time`, as a mathematical integer.
///
/// A start time of zero stands for "no open accrual window" and earns nothing.
pub open spec fn accrued_rewards(staked_amount: nat, stake_start_time: int, current_time: int) -> int {
    if stake_start_time == 0 {
        0
    } else {
        (current_time - stake_start_time) * REWARDS_RATE_PER_SECOND_PER_STAKE * staked_amount
    }
}

/// What the calculator answers: the accrued reward, or the reason why there is
/// none to give.
pub open spec fn pending_rewards_outcome(
    staked_amount: nat,
    stake_start_time: int,
    current_time: int,
) -> Result<u64, ErrorCode> {
    if stake_start_time != 0 && current_time < stake_start_time {
        Err(ErrorCode::InvalidTimestamp)
    } else if accrued_rewards(staked_amount, stake_start_time, current_time) > u64::MAX {
        Err(ErrorCode::ArithmeticOverflow)
    } else {
        Ok(accrued_rewards(staked_amount, stake_start_time, current_time) as u64)
    }
}

/// Once the clock has reached the start of the window, the accrued reward is
/// never negative.
pub proof fn lemma_accrued_rewards_nonnegative(
    staked_amount: nat,
    stake_start_time: int,
    current_time: int,
)
    requires
        stake_start_time == 0 || current_time >= stake_start_time,
    ensures
        accrued_rewards(staked_amount, stake_start_time, current_time) >= 0,
{
    if stake_start_time != 0 {
        let elapsed = current_time - stake_start_time;
        assert(elapsed * REWARDS_RATE_PER_SECOND_PER_STAKE * staked_amount >= 0)
            by (nonlinear_arith)
            requires
                elapsed >= 0,
                staked_amount >= 0,
                REWARDS_RATE_PER_SECOND_PER_STAKE >= 0,
        ;
    }
}

/// A window of no length has earned nothing, whatever is staked.
pub proof fn lemma_accrued_rewards_zero_elapsed(staked_amount: nat, time: int)
    ensures
        accrued_rewards(staked_amount, time, time) == 0,
{
    assert(0 * REWARDS_RATE_PER_SECOND_PER_STAKE * staked_amount == 0) by (nonlinear_arith);
}

/// Computes the reward pending on `staked_amount` for the window that began
/// at `stake_start_time`, as of `current_time`.
///
/// A start time of zero means that no window is open: the answer is zero. A
/// clock behind the start of the window is refused with `InvalidTimestamp`, a
/// reward beyond 64 bits with `ArithmeticOverflow`.
pub fn pending_rewards(staked_amount: u64, stake_start_time: i64, current_time: i64) -> (pending:
    Result<u64, ErrorCode>)
    ensures
        pending == pending_rewards_outcome(
            staked_amount as nat,
            stake_start_time as int,
            current_time as int,
        ),
        stake_start_time == 0 ==> pending == Ok::<u64, ErrorCode>(0),
        stake_start_time != 0 && current_time >= stake_start_time ==> match pending {
            Ok(reward) => reward == (current_time - stake_start_time)
                * REWARDS_RATE_PER_SECOND_PER_STAKE * staked_amount,
            Err(e) => e == ErrorCode::ArithmeticOverflow && (current_time - stake_start_time)
                * REWARDS_RATE_PER_SECOND_PER_STAKE * staked_amount > u64::MAX,
        },
        stake_start_time != 0 && current_time < stake_start_time ==> pending == Err::<
            u64,
            ErrorCode,
        >(ErrorCode::InvalidTimestamp),
{
    if stake_start_time == 0 {
        return Ok(0);
    }
    if current_time < stake_start_time {
        return Err(ErrorCode::InvalidTimestamp);
    }
    let elapsed: u128 = (current_time as i128 - stake_start_time as i128) as u128;
    let per_second: u128 = REWARDS_RATE_PER_SECOND_PER_STAKE as u128 * (staked_amount as u128);
    assert(elapsed * per_second <= 0xffff_ffff_ffff_ffff * 0xffff_ffff_ffff_ffff)
        by (nonlinear_arith)
        requires
            0 <= elapsed <= 0xffff_ffff_ffff_ffff,
            0 <= per_second <= 0xffff_ffff_ffff_ffff,
    ;
    let total: u128 = elapsed * per_second;
    assert(total == accrued_rewards(
        staked_amount as nat,
        stake_start_time as int,
        current_time as int,
    )) by (nonlinear_arith)
        requires
            stake_start_time != 0,
            total == elapsed * per_second,
            elapsed == current_time - stake_start_time,
            per_second == REWARDS_RATE_PER_SECOND_PER_STAKE * staked_amount,
    ;
    if total > u64::MAX as u128 {
        Err(ErrorCode::ArithmeticOverflow)
    } else {
        Ok(total as u64)
    }
}

} // verus!
