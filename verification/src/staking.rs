//! The operations on a stake account: open, stake, unstake, claim.
//!
//! An operation never moves tokens itself. It checks the request against the
//! account, works out the account as it will be, and names the custody
//! transfer that goes with it. The caller carries out the transfer and reports
//! back; only then does the new account take the place of the old one.

use vstd::prelude::*;
use crate::account::{StakeAccount, StakeAccountView};
use crate::custody::{Party, TransferRequest};
use crate::error::ErrorCode;
use crate::identity::Identity;
use crate::rewards::{
    accrued_rewards,
    lemma_accrued_rewards_nonnegative,
    lemma_accrued_rewards_zero_elapsed,
    REWARDS_RATE_PER_SECOND_PER_STAKE,
};

verus! {

/// Seconds that must pass after the start of the accrual window before
/// principal may be withdrawn.
pub const STAKE_LOCK_TIME: i64 = 5;

/// An accepted operation as a mathematical record: the account as it will be,
/// and the transfer that has to succeed first.
pub struct PendingUpdateView {
    pub account: StakeAccountView,
    pub transfer: TransferRequest,
}

/// An operation that has passed every check and waits for its custody
/// transfer.
///
/// `account` is the state to keep if `transfer` succeeds. If the transfer
/// fails the update is dropped and the stored account stays as it was.
#[derive(Clone, Copy, Debug, PartialEq, Eq)]
pub struct PendingUpdate {
    pub account: StakeAccount,
    pub transfer: TransferRequest,
}

impl View for PendingUpdate {
    type V = PendingUpdateView;

    open spec fn view(&self) -> PendingUpdateView {
        PendingUpdateView { account: self.account@, transfer: self.transfer }
    }
}

/// The result of an operation, with the update read as a mathematical record.
pub open spec fn outcome_of(update: Result<PendingUpdate, ErrorCode>) -> Result<
    PendingUpdateView,
    ErrorCode,
> {
    match update {
        Ok(u) => Ok(u@),
        Err(e) => Err(e),
    }
}

/// The start of the accrual window of an account that holds `staked_amount`
/// after an operation at `now`: a new window while principal remains, none
/// once the position is closed.
pub open spec fn restarted_window(staked_amount: nat, now: int) -> int {
    if staked_amount > 0 {
        now
    } else {
        0
    }
}

/// What staking `amount` at `now` leads to, asked for by `staker`.
///
/// The pending reward is settled on the principal and start time from before
/// the deposit; only then does the principal grow and the window restart.
pub open spec fn stake_outcome(
    account: StakeAccountView,
    staker: Seq<u8>,
    amount: u64,
    now: i64,
) -> Result<PendingUpdateView, ErrorCode> {
    if staker != account.authority {
        Err(ErrorCode::Unauthorized)
    } else if amount == 0 {
        Err(ErrorCode::InvalidAmount)
    } else {
        match account.settled(now as int) {
            Err(e) => Err(e),
            Ok(unclaimed) => if account.staked_amount + amount > u64::MAX {
                Err(ErrorCode::ArithmeticOverflow)
            } else {
                Ok(
                    PendingUpdateView {
                        account: StakeAccountView {
                            authority: account.authority,
                            staked_amount: account.staked_amount + amount as nat,
                            stake_start_time: now as int,
                            unclaimed_amount: unclaimed as nat,
                        },
                        transfer: TransferRequest {
                            from: Party::Participant,
                            to: Party::StakeVault,
                            authority: Party::Participant,
                            amount,
                        },
                    },
                )
            },
        }
    }
}

/// Whether principal cannot yet be withdrawn at `now`.
pub open spec fn is_locked(account: StakeAccountView, now: int) -> bool {
    now < account.stake_start_time + STAKE_LOCK_TIME
}

/// What unstaking `amount` at `now` leads to, asked for by `authority`.
pub open spec fn unstake_outcome(
    account: StakeAccountView,
    authority: Seq<u8>,
    amount: u64,
    now: i64,
) -> Result<PendingUpdateView, ErrorCode> {
    if authority != account.authority {
        Err(ErrorCode::Unauthorized)
    } else if is_locked(account, now as int) {
        Err(ErrorCode::StakeIsLocked)
    } else if amount > account.staked_amount {
        Err(ErrorCode::InsufficientFundsStaked)
    } else {
        match account.settled(now as int) {
            Err(e) => Err(e),
            Ok(unclaimed) => {
                let remaining = (account.staked_amount - amount) as nat;
                Ok(
                    PendingUpdateView {
                        account: StakeAccountView {
                            authority: account.authority,
                            staked_amount: remaining,
                            stake_start_time: restarted_window(remaining, now as int),
                            unclaimed_amount: unclaimed as nat,
                        },
                        transfer: TransferRequest {
                            from: Party::StakeVault,
                            to: Party::Participant,
                            authority: Party::StakeVault,
                            amount,
                        },
                    },
                )
            },
        }
    }
}

/// What claiming at `now` leads to, asked for by `authority`.
///
/// Everything settled is paid out, and the accrual window restarts at `now`,
/// so that no second is paid for twice.
pub open spec fn claim_outcome(account: StakeAccountView, authority: Seq<u8>, now: i64) -> Result<
    PendingUpdateView,
    ErrorCode,
> {
    if authority != account.authority {
        Err(ErrorCode::Unauthorized)
    } else {
        match account.settled(now as int) {
            Err(e) => Err(e),
            Ok(unclaimed) => Ok(
                PendingUpdateView {
                    account: StakeAccountView {
                        authority: account.authority,
                        staked_amount: account.staked_amount,
                        stake_start_time: restarted_window(account.staked_amount, now as int),
                        unclaimed_amount: 0,
                    },
                    transfer: TransferRequest {
                        from: Party::RewardVault,
                        to: Party::Participant,
                        authority: Party::RewardVault,
                        amount: unclaimed,
                    },
                },
            ),
        }
    }
}

/// What becomes of an accepted operation once its transfer has been tried.
pub open spec fn completion(update: PendingUpdateView, transfer_succeeded: bool) -> Result<
    StakeAccountView,
    ErrorCode,
> {
    if transfer_succeeded {
        Ok(update.account)
    } else {
        Err(ErrorCode::TransferFailed)
    }
}

/// Opens a stake account for `stake_authority`: nothing staked, no accrual
/// window, nothing unclaimed. No tokens move.
pub fn initialize_stake_account(stake_authority: Identity) -> (account: StakeAccount)
    ensures
        account@ == StakeAccountView::opened(stake_authority@),
        account@.well_formed(),
{
    StakeAccount::new(stake_authority)
}

/// Stakes `amount` more tokens on `account` at time `now`.
///
/// On success the update names a transfer of `amount` from the participant
/// into the stake vault, signed by the participant. The reward pending at
/// `now` is settled on the principal staked so far, then the principal grows
/// by `amount` and the accrual window restarts at `now`. Since a start time
/// of zero marks the absence of a window, a stake at time zero earns nothing
/// until the next operation restarts the window.
///
/// Refused with `Unauthorized` when `staker` is not the account's authority,
/// else with `InvalidAmount` when `amount` is zero, else with
/// `InvalidTimestamp` when `now` is before the start of the open window, else
/// with `ArithmeticOverflow` when the settled rewards or the new principal do
/// not fit in 64 bits.
pub fn stake_tokens(account: &StakeAccount, staker: Identity, amount: u64, now: i64) -> (update:
    Result<PendingUpdate, ErrorCode>)
    ensures
        outcome_of(update) == stake_outcome(account@, staker@, amount, now),
        update is Ok <==> staker@ == account@.authority && amount > 0 && account@.settled(
            now as int,
        ) is Ok && account@.staked_amount + amount <= u64::MAX,
        update matches Ok(u) ==> {
            &&& u@.account.well_formed()
            &&& u@.account.staked_amount == account@.staked_amount + amount
            &&& u@.account.staked_amount > 0
            &&& u@.account.stake_start_time == now
            &&& u@.account.unclaimed_amount == account@.unclaimed_amount + accrued_rewards(
                account@.staked_amount,
                account@.stake_start_time,
                now as int,
            )
            &&& u@.account.unclaimed_amount >= account@.unclaimed_amount
            &&& u.transfer.amount == amount
        },
{
    if !(staker == account.authority()) {
        return Err(ErrorCode::Unauthorized);
    }
    if amount == 0 {
        return Err(ErrorCode::InvalidAmount);
    }
    let unclaimed: u64 = match account.settle(now) {
        Ok(total) => total,
        Err(e) => {
            return Err(e);
        },
    };
    let staked: u64 = match account.staked_amount().checked_add(amount) {
        Some(sum) => sum,
        None => {
            return Err(ErrorCode::ArithmeticOverflow);
        },
    };
    Ok(
        PendingUpdate {
            account: StakeAccount::assemble(account.authority(), staked, now, unclaimed),
            transfer: TransferRequest {
                from: Party::Participant,
                to: Party::StakeVault,
                authority: Party::Participant,
                amount,
            },
        },
    )
}

/// Withdraws `amount` of the staked principal from `account` at time `now`.
///
/// On success the update names a transfer of `amount` out of the stake vault
/// to the participant, signed by the vault itself. The reward pending at `now`
/// is settled on the principal from before the withdrawal. While principal
/// remains the accrual window restarts at `now`; a full withdrawal closes it.
///
/// Refused with `Unauthorized` when `authority` is not the account's
/// authority, else with `StakeIsLocked` while `now` is less than
/// `STAKE_LOCK_TIME` seconds after the start of the window, else with
/// `InsufficientFundsStaked` when `amount` is more than is staked, else with
/// `ArithmeticOverflow` when the settled rewards do not fit in 64 bits.
pub fn unstake_tokens(account: &StakeAccount, authority: Identity, amount: u64, now: i64) -> (update:
    Result<PendingUpdate, ErrorCode>)
    ensures
        outcome_of(update) == unstake_outcome(account@, authority@, amount, now),
        update is Ok <==> authority@ == account@.authority && now >= account@.stake_start_time
            + STAKE_LOCK_TIME && amount <= account@.staked_amount && account@.settled(
            now as int,
        ) is Ok,
        update matches Err(ErrorCode::StakeIsLocked) <==> authority@ == account@.authority && now
            < account@.stake_start_time + STAKE_LOCK_TIME,
        update matches Err(ErrorCode::InsufficientFundsStaked) <==> authority@ == account@.authority
            && now >= account@.stake_start_time + STAKE_LOCK_TIME && amount
            > account@.staked_amount,
        update matches Ok(u) ==> {
            &&& u@.account.well_formed()
            &&& u@.account.staked_amount == account@.staked_amount - amount
            &&& u@.account.unclaimed_amount == account@.unclaimed_amount + accrued_rewards(
                account@.staked_amount,
                account@.stake_start_time,
                now as int,
            )
            &&& u@.account.unclaimed_amount >= account@.unclaimed_amount
            &&& amount == account@.staked_amount ==> u@.account.stake_start_time == 0
            &&& amount < account@.staked_amount ==> u@.account.stake_start_time == now
            &&& u.transfer.amount == amount
        },
{
    if !(authority == account.authority()) {
        return Err(ErrorCode::Unauthorized);
    }
    if (now as i128) < account.stake_start_time() as i128 + STAKE_LOCK_TIME as i128 {
        return Err(ErrorCode::StakeIsLocked);
    }
    if amount > account.staked_amount() {
        return Err(ErrorCode::InsufficientFundsStaked);
    }
    let unclaimed: u64 = match account.settle(now) {
        Ok(total) => total,
        Err(e) => {
            return Err(e);
        },
    };
    let remaining: u64 = account.staked_amount() - amount;
    let start: i64 = if remaining > 0 {
        now
    } else {
        0
    };
    Ok(
        PendingUpdate {
            account: StakeAccount::assemble(account.authority(), remaining, start, unclaimed),
            transfer: TransferRequest {
                from: Party::StakeVault,
                to: Party::Participant,
                authority: Party::StakeVault,
                amount,
            },
        },
    )
}

/// Claims all rewards of `account` as of time `now`.
///
/// On success the update names a transfer of the whole unclaimed balance,
/// pending reward settled in, out of the reward vault to the participant,
/// signed by the vault itself. The unclaimed balance drops to zero and, while
/// principal is staked, the accrual window restarts at `now`.
///
/// Refused with `Unauthorized` when `authority` is not the account's
/// authority, else with `InvalidTimestamp` when `now` is before the start of
/// the open window, else with `ArithmeticOverflow` when the settled rewards do
/// not fit in 64 bits.
pub fn claim_rewards(account: &StakeAccount, authority: Identity, now: i64) -> (update: Result<
    PendingUpdate,
    ErrorCode,
>)
    ensures
        outcome_of(update) == claim_outcome(account@, authority@, now),
        update is Ok <==> authority@ == account@.authority && account@.settled(now as int) is Ok,
        update matches Ok(u) ==> {
            &&& u@.account.well_formed()
            &&& u@.account.staked_amount == account@.staked_amount
            &&& u@.account.stake_start_time == restarted_window(
                account@.staked_amount,
                now as int,
            )
            &&& u@.account.unclaimed_amount == 0
            &&& u.transfer.amount == account@.unclaimed_amount + accrued_rewards(
                account@.staked_amount,
                account@.stake_start_time,
                now as int,
            )
        },
{
    if !(authority == account.authority()) {
        return Err(ErrorCode::Unauthorized);
    }
    let unclaimed: u64 = match account.settle(now) {
        Ok(total) => total,
        Err(e) => {
            return Err(e);
        },
    };
    let staked: u64 = account.staked_amount();
    let start: i64 = if staked > 0 {
        now
    } else {
        0
    };
    Ok(
        PendingUpdate {
            account: StakeAccount::assemble(account.authority(), staked, start, 0),
            transfer: TransferRequest {
                from: Party::RewardVault,
                to: Party::Participant,
                authority: Party::RewardVault,
                amount: unclaimed,
            },
        },
    )
}

/// An accepted operation leaves a well-formed account behind.
pub proof fn lemma_outcomes_are_well_formed(
    account: StakeAccountView,
    actor: Seq<u8>,
    amount: u64,
    now: i64,
)
    requires
        account.well_formed(),
    ensures
        stake_outcome(account, actor, amount, now) matches Ok(u) ==> u.account.well_formed(),
        unstake_outcome(account, actor, amount, now) matches Ok(u) ==> u.account.well_formed(),
        claim_outcome(account, actor, now) matches Ok(u) ==> u.account.well_formed(),
{
}

/// Every accepted operation changes the staked principal by exactly what its
/// transfer adds to the stake vault, less what it takes out of it.
pub proof fn lemma_principal_follows_transfer(
    account: StakeAccountView,
    actor: Seq<u8>,
    amount: u64,
    now: i64,
)
    ensures
        stake_outcome(account, actor, amount, now) matches Ok(u) ==> u.account.staked_amount
            == account.staked_amount + u.transfer.into_stake_vault()
            - u.transfer.out_of_stake_vault(),
        unstake_outcome(account, actor, amount, now) matches Ok(u) ==> u.account.staked_amount
            == account.staked_amount + u.transfer.into_stake_vault()
            - u.transfer.out_of_stake_vault(),
        claim_outcome(account, actor, now) matches Ok(u) ==> u.account.staked_amount
            == account.staked_amount + u.transfer.into_stake_vault()
            - u.transfer.out_of_stake_vault(),
{
}

/// Settlement comes before the deposit: when a second stake follows a first,
/// the reward for the time between them is counted on the principal that was
/// staked before the second deposit, whatever the second deposit adds.
pub proof fn lemma_top_up_settles_on_prior_principal(
    account: StakeAccountView,
    staker: Seq<u8>,
    first: u64,
    first_time: i64,
    second: u64,
    second_time: i64,
)
    requires
        stake_outcome(account, staker, first, first_time) is Ok,
        stake_outcome(
            stake_outcome(account, staker, first, first_time)->Ok_0.account,
            staker,
            second,
            second_time,
        ) is Ok,
    ensures
        ({
            let after_first = stake_outcome(account, staker, first, first_time)->Ok_0.account;
            let after_second = stake_outcome(after_first, staker, second, second_time)->Ok_0.account;
            &&& after_second.unclaimed_amount == after_first.unclaimed_amount + accrued_rewards(
                account.staked_amount + first as nat,
                first_time as int,
                second_time as int,
            )
            &&& first_time != 0 ==> after_second.unclaimed_amount == after_first.unclaimed_amount
                + (second_time - first_time) * REWARDS_RATE_PER_SECOND_PER_STAKE * (
            account.staked_amount + first)
            &&& after_second.staked_amount == account.staked_amount + first + second
        }),
{
}

/// Claiming twice at the same instant pays once: the second claim is accepted,
/// transfers nothing and leaves the account as the first claim left it, with
/// nothing unclaimed.
pub proof fn lemma_claim_twice_pays_once(account: StakeAccountView, authority: Seq<u8>, now: i64)
    requires
        claim_outcome(account, authority, now) is Ok,
    ensures
        ({
            let first = claim_outcome(account, authority, now)->Ok_0;
            let second = claim_outcome(first.account, authority, now);
            &&& first.account.unclaimed_amount == 0
            &&& second is Ok
            &&& second->Ok_0.transfer.amount == 0
            &&& second->Ok_0.account.unclaimed_amount == 0
            &&& second->Ok_0.account == first.account
        }),
{
    let first = claim_outcome(account, authority, now)->Ok_0;
    lemma_accrued_rewards_zero_elapsed(first.account.staked_amount, now as int);
}

/// The lock ends exactly `STAKE_LOCK_TIME` seconds after the start of the
/// accrual window. Before that instant the authority's request to unstake is
/// refused as locked. At that instant and after, a request within the staked
/// principal is accepted, unless the settled rewards would not fit in 64
/// bits.
pub proof fn lemma_lock_ends_at_boundary(
    account: StakeAccountView,
    authority: Seq<u8>,
    amount: u64,
    now: i64,
)
    requires
        authority == account.authority,
    ensures
        now < account.stake_start_time + STAKE_LOCK_TIME ==> unstake_outcome(
            account,
            authority,
            amount,
            now,
        ) == Err::<PendingUpdateView, ErrorCode>(ErrorCode::StakeIsLocked),
        now >= account.stake_start_time + STAKE_LOCK_TIME && amount <= account.staked_amount
            ==> match unstake_outcome(account, authority, amount, now) {
            Ok(_) => account.unclaimed_amount + account.pending(now as int) <= u64::MAX,
            Err(e) => e == ErrorCode::ArithmeticOverflow && account.unclaimed_amount
                + account.pending(now as int) > u64::MAX,
        },
{
    if now >= account.stake_start_time + STAKE_LOCK_TIME {
        lemma_accrued_rewards_nonnegative(
            account.staked_amount,
            account.stake_start_time,
            now as int,
        );
    }
}

/// Withdrawing all the principal closes the position: the start time goes back
/// to zero and from then on no reward is pending, at whatever time it is
/// asked for.
pub proof fn lemma_full_unstake_closes_window(
    account: StakeAccountView,
    authority: Seq<u8>,
    amount: u64,
    now: i64,
    later: int,
)
    requires
        amount == account.staked_amount,
        unstake_outcome(account, authority, amount, now) is Ok,
    ensures
        ({
            let closed = unstake_outcome(account, authority, amount, now)->Ok_0.account;
            &&& closed.staked_amount == 0
            &&& closed.stake_start_time == 0
            &&& closed.pending(later) == 0
            &&& closed.settled(later) == Ok::<u64, ErrorCode>(closed.unclaimed_amount as u64)
        }),
{
}

/// A closed position stays closed until the next stake: claims and empty
/// withdrawals leave it without principal and without an accrual window, and
/// settle no reward.
pub proof fn lemma_closed_position_stays_closed(
    account: StakeAccountView,
    authority: Seq<u8>,
    amount: u64,
    now: i64,
)
    requires
        account.staked_amount == 0,
        account.stake_start_time == 0,
        account.unclaimed_amount <= u64::MAX,
    ensures
        claim_outcome(account, authority, now) matches Ok(u) ==> {
            &&& u.account.staked_amount == 0
            &&& u.account.stake_start_time == 0
            &&& u.transfer.amount == account.unclaimed_amount
        },
        unstake_outcome(account, authority, amount, now) matches Ok(u) ==> {
            &&& u.account.staked_amount == 0
            &&& u.account.stake_start_time == 0
            &&& u.account.unclaimed_amount == account.unclaimed_amount
            &&& u.transfer.amount == 0
        },
{
}

impl PendingUpdate {
    /// Concludes the operation once the transfer has been tried: the new
    /// account if the transfer went through, `TransferFailed` and nothing else
    /// if it did not.
    pub fn complete(self, transfer_succeeded: bool) -> (account: Result<StakeAccount, ErrorCode>)
        ensures
            transfer_succeeded ==> account == Ok::<StakeAccount, ErrorCode>(self.account)
                && completion(self@, transfer_succeeded) == Ok::<StakeAccountView, ErrorCode>(
                self.account@,
            ),
            !transfer_succeeded ==> account == Err::<StakeAccount, ErrorCode>(
                ErrorCode::TransferFailed,
            ) && completion(self@, transfer_succeeded) == Err::<StakeAccountView, ErrorCode>(
                ErrorCode::TransferFailed,
            ),
    {
        if transfer_succeeded {
            Ok(self.account)
        } else {
            Err(ErrorCode::TransferFailed)
        }
    }
}

} // verus!
