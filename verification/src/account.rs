//! The per-participant stake account.

use vstd::prelude::*;
use crate::error::ErrorCode;
use crate::identity::{Identity, IDENTITY_BYTES};
use crate::rewards::{accrued_rewards, pending_rewards, pending_rewards_outcome};

verus! {

/// A stake account as a mathematical record.
pub struct StakeAccountView {
    /// The identity of the only participant who may change the account.
    pub authority: Seq<u8>,
    /// The principal held in custody for the account.
    pub staked_amount: nat,
    /// Seconds since the epoch at which the current accrual window began;
    /// zero when no window is open.
    pub stake_start_time: int,
    /// Rewards settled but not yet paid out.
    pub unclaimed_amount: nat,
}

impl StakeAccountView {
    /// The account as it is right after it has been opened for `authority`.
    pub open spec fn opened(authority: Seq<u8>) -> StakeAccountView {
        StakeAccountView { authority, staked_amount: 0, stake_start_time: 0, unclaimed_amount: 0 }
    }

    /// An account without principal has no open accrual window.
    pub open spec fn sentinel_discipline(self) -> bool {
        self.staked_amount == 0 ==> self.stake_start_time == 0
    }

    /// The record is one that a stored account can have: every field fits its
    /// machine type and the sentinel discipline holds.
    pub open spec fn well_formed(self) -> bool {
        &&& self.authority.len() == IDENTITY_BYTES
        &&& self.staked_amount <= u64::MAX
        &&& i64::MIN <= self.stake_start_time <= i64::MAX
        &&& self.unclaimed_amount <= u64::MAX
        &&& self.sentinel_discipline()
    }

    /// The reward that the open window has earned as of `now`.
    pub open spec fn pending(self, now: int) -> int {
        accrued_rewards(self.staked_amount, self.stake_start_time, now)
    }

    /// The unclaimed balance after the open window has been settled into it as
    /// of `now`, or the reason why it cannot be settled.
    pub open spec fn settled(self, now: int) -> Result<u64, ErrorCode> {
        match pending_rewards_outcome(self.staked_amount, self.stake_start_time, now) {
            Err(e) => Err(e),
            Ok(pending) => if self.unclaimed_amount + pending > u64::MAX {
                Err(ErrorCode::ArithmeticOverflow)
            } else {
                Ok((self.unclaimed_amount + pending) as u64)
            },
        }
    }
}

/// The record kept for one participant: who owns it, how much principal is
/// staked, when the current accrual window began and how much reward is
/// settled but unpaid.
///
/// The fields change only through the staking operations, so an account
/// without principal never has an open accrual window.
#[derive(Clone, Copy, Debug, PartialEq, Eq)]
pub struct StakeAccount {
    authority: Identity,
    staked_amount: u64,
    stake_start_time: i64,
    unclaimed_amount: u64,
}

impl View for StakeAccount {
    type V = StakeAccountView;

    closed spec fn view(&self) -> StakeAccountView {
        StakeAccountView {
            authority: self.authority@,
            staked_amount: self.staked_amount as nat,
            stake_start_time: self.stake_start_time as int,
            unclaimed_amount: self.unclaimed_amount as nat,
        }
    }
}

impl StakeAccount {
    #[verifier::type_invariant]
    spec fn closed_position_has_no_window(self) -> bool {
        self.staked_amount == 0 ==> self.stake_start_time == 0
    }

    /// Opens an account for `authority`, with nothing staked and nothing owed.
    pub fn new(authority: Identity) -> (account: StakeAccount)
        ensures
            account@ == StakeAccountView::opened(authority@),
            account@.well_formed(),
    {
        StakeAccount { authority, staked_amount: 0, stake_start_time: 0, unclaimed_amount: 0 }
    }

    /// Rebuilds an account from stored fields.
    ///
    /// Returns `None` exactly when the fields break the sentinel discipline:
    /// nothing staked, yet a start time other than zero.
    pub fn from_parts(
        authority: Identity,
        staked_amount: u64,
        stake_start_time: i64,
        unclaimed_amount: u64,
    ) -> (account: Option<StakeAccount>)
        ensures
            account is Some <==> (staked_amount == 0 ==> stake_start_time == 0),
            account matches Some(a) ==> a@ == (StakeAccountView {
                authority: authority@,
                staked_amount: staked_amount as nat,
                stake_start_time: stake_start_time as int,
                unclaimed_amount: unclaimed_amount as nat,
            }) && a@.well_formed(),
    {
        if staked_amount == 0 && stake_start_time != 0 {
            None
        } else {
            Some(StakeAccount { authority, staked_amount, stake_start_time, unclaimed_amount })
        }
    }

    /// Builds an account from fields that are known to keep the sentinel
    /// discipline.
    pub(crate) fn assemble(
        authority: Identity,
        staked_amount: u64,
        stake_start_time: i64,
        unclaimed_amount: u64,
    ) -> (account: StakeAccount)
        requires
            staked_amount == 0 ==> stake_start_time == 0,
        ensures
            account@ == (StakeAccountView {
                authority: authority@,
                staked_amount: staked_amount as nat,
                stake_start_time: stake_start_time as int,
                unclaimed_amount: unclaimed_amount as nat,
            }),
            account@.well_formed(),
    {
        StakeAccount { authority, staked_amount, stake_start_time, unclaimed_amount }
    }

    /// The participant who alone may change the account.
    pub fn authority(&self) -> (authority: Identity)
        ensures
            authority@ == self@.authority,
            self@.well_formed(),
    {
        proof {
            use_type_invariant(self);
        }
        self.authority
    }

    /// The principal held in custody for the account.
    pub fn staked_amount(&self) -> (amount: u64)
        ensures
            amount == self@.staked_amount,
            self@.well_formed(),
    {
        proof {
            use_type_invariant(self);
        }
        self.staked_amount
    }

    /// When the current accrual window began; zero when none is open.
    pub fn stake_start_time(&self) -> (time: i64)
        ensures
            time == self@.stake_start_time,
            self@.well_formed(),
    {
        proof {
            use_type_invariant(self);
        }
        self.stake_start_time
    }

    /// Rewards settled but not yet paid out.
    pub fn unclaimed_amount(&self) -> (amount: u64)
        ensures
            amount == self@.unclaimed_amount,
            self@.well_formed(),
    {
        proof {
            use_type_invariant(self);
        }
        self.unclaimed_amount
    }

    /// The reward that the open accrual window has earned as of
    /// `current_time` and that is not yet settled into the unclaimed balance.
    ///
    /// Zero when no window is open. `InvalidTimestamp` when the clock is behind
    /// the start of the window, `ArithmeticOverflow` when the reward does not
    /// fit in 64 bits.
    pub fn calculate_pending_rewards(&self, current_time: i64) -> (pending: Result<u64, ErrorCode>)
        ensures
            pending == pending_rewards_outcome(
                self@.staked_amount,
                self@.stake_start_time,
                current_time as int,
            ),
            pending matches Ok(reward) ==> reward == self@.pending(current_time as int),
            self@.stake_start_time == 0 ==> pending == Ok::<u64, ErrorCode>(0),
    {
        pending_rewards(self.staked_amount, self.stake_start_time, current_time)
    }

    /// The unclaimed balance as it stands once the pending reward has been
    /// settled into it as of `current_time`.
    ///
    /// Fails as `calculate_pending_rewards` does, and with
    /// `ArithmeticOverflow` when the sum does not fit in 64 bits.
    pub fn settle(&self, current_time: i64) -> (unclaimed: Result<u64, ErrorCode>)
        ensures
            unclaimed == self@.settled(current_time as int),
            unclaimed matches Ok(total) ==> total == self@.unclaimed_amount + self@.pending(
                current_time as int,
            ) && total >= self@.unclaimed_amount,
    {
        match self.calculate_pending_rewards(current_time) {
            Err(e) => Err(e),
            Ok(pending) => match self.unclaimed_amount.checked_add(pending) {
                None => Err(ErrorCode::ArithmeticOverflow),
                Some(total) => Ok(total),
            },
        }
    }
}

} // verus!
