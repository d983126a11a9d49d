//! A staking ledger with time-proportional rewards.
//!
//! Participants deposit a single fungible asset into custody, earn rewards in
//! proportion to the amount staked and the time elapsed, withdraw principal
//! after a lock period and collect rewards at any time. This crate holds the
//! ledger itself: the per-participant account, the accrual formula and the
//! transitions that stake, unstake and claim. Moving tokens, reading the clock
//! and storing accounts are left to the caller; every transition names the
//! custody transfer that has to succeed before its result may be kept.

pub mod account;
pub mod custody;
pub mod error;
pub mod identity;
pub mod ledger;
pub mod rewards;
pub mod staking;

pub use account::{StakeAccount, StakeAccountView};
pub use custody::{Party, TransferRequest};
pub use error::ErrorCode;
pub use identity::{Identity, IDENTITY_BYTES};
pub use rewards::{pending_rewards, REWARDS_RATE_PER_SECOND_PER_STAKE};
pub use staking::{
    claim_rewards, initialize_stake_account, stake_tokens, unstake_tokens, PendingUpdate,
    PendingUpdateView, STAKE_LOCK_TIME,
};
