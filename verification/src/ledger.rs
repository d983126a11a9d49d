//! A model of the whole ledger: every stake account together with what has
//! gone into and come out of the stake vault.
//!
//! The model exists to state what holds of every history of operations. It
//! is built from the same outcome functions that the operations themselves
//! are held to.

use vstd::prelude::*;
use crate::account::StakeAccountView;
use crate::error::ErrorCode;
use crate::identity::IDENTITY_BYTES;
use crate::staking::{
    claim_outcome,
    completion,
    lemma_outcomes_are_well_formed,
    lemma_principal_follows_transfer,
    stake_outcome,
    unstake_outcome,
    PendingUpdateView,
};

verus! {

/// What a participant asks of an account.
pub enum Request {
    /// Stake `amount` more tokens.
    Stake { amount: u64 },
    /// Withdraw `amount` of the principal.
    Unstake { amount: u64 },
    /// Collect the rewards.
    Claim,
}

/// One step of a history.
pub enum Step {
    /// An account is opened for `authority`.
    Open { authority: Seq<u8> },
    /// `actor` asks `request` of the account at position `account` at time
    /// `now`, and the custody transfer that goes with it succeeds or fails.
    Act { account: int, actor: Seq<u8>, request: Request, now: i64, transfer_succeeded: bool },
}

/// All accounts, and the running totals of the stake vault.
pub struct Ledger {
    pub accounts: Seq<StakeAccountView>,
    /// Everything ever moved into the stake vault.
    pub deposited: nat,
    /// Everything ever moved out of the stake vault.
    pub withdrawn: nat,
}

/// The principal staked on all of `accounts` together.
pub open spec fn total_staked(accounts: Seq<StakeAccountView>) -> nat
    decreases accounts.len(),
{
    if accounts.len() == 0 {
        0
    } else {
        total_staked(accounts.drop_last()) + accounts.last().staked_amount
    }
}

/// The outcome of `request` on `account`, asked for by `actor` at `now`.
pub open spec fn attempt(account: StakeAccountView, actor: Seq<u8>, request: Request, now: i64) -> Result<
    PendingUpdateView,
    ErrorCode,
> {
    match request {
        Request::Stake { amount } => stake_outcome(account, actor, amount, now),
        Request::Unstake { amount } => unstake_outcome(account, actor, amount, now),
        Request::Claim => claim_outcome(account, actor, now),
    }
}

impl Ledger {
    /// The ledger before anything has happened.
    pub open spec fn empty() -> Ledger {
        Ledger { accounts: Seq::empty(), deposited: 0, withdrawn: 0 }
    }

    /// The staked principal of all accounts equals what went into the stake
    /// vault less what came out of it.
    pub open spec fn conserved(self) -> bool {
        total_staked(self.accounts) == self.deposited - self.withdrawn
    }

    /// Every account is well formed.
    pub open spec fn well_formed(self) -> bool {
        forall|i: int| 0 <= i < self.accounts.len() ==> (#[trigger] self.accounts[i]).well_formed()
    }

    /// The ledger after one step. A step that is refused, that names no
    /// account, or whose transfer fails changes nothing.
    pub open spec fn step(self, step: Step) -> Ledger {
        match step {
            Step::Open { authority } => if authority.len() == IDENTITY_BYTES {
                Ledger {
                    accounts: self.accounts.push(StakeAccountView::opened(authority)),
                    deposited: self.deposited,
                    withdrawn: self.withdrawn,
                }
            } else {
                self
            },
            Step::Act { account, actor, request, now, transfer_succeeded } => if 0 <= account
                < self.accounts.len() {
                match attempt(self.accounts[account], actor, request, now) {
                    Err(_) => self,
                    Ok(update) => match completion(update, transfer_succeeded) {
                        Err(_) => self,
                        Ok(next) => Ledger {
                            accounts: self.accounts.update(account, next),
                            deposited: self.deposited + update.transfer.into_stake_vault(),
                            withdrawn: self.withdrawn + update.transfer.out_of_stake_vault(),
                        },
                    },
                }
            } else {
                self
            },
        }
    }

    /// The ledger after a whole history, first step first.
    pub open spec fn run(self, steps: Seq<Step>) -> Ledger
        decreases steps.len(),
    {
        if steps.len() == 0 {
            self
        } else {
            self.run(steps.drop_last()).step(steps.last())
        }
    }
}

/// A new account adds its principal to the total.
pub proof fn lemma_total_staked_push(accounts: Seq<StakeAccountView>, account: StakeAccountView)
    ensures
        total_staked(accounts.push(account)) == total_staked(accounts) + account.staked_amount,
{
    assert(accounts.push(account).drop_last() =~= accounts);
}

/// Replacing one account changes the total by the difference in principal.
pub proof fn lemma_total_staked_update(
    accounts: Seq<StakeAccountView>,
    i: int,
    account: StakeAccountView,
)
    requires
        0 <= i < accounts.len(),
    ensures
        total_staked(accounts.update(i, account)) == total_staked(accounts)
            - accounts[i].staked_amount + account.staked_amount,
    decreases accounts.len(),
{
    if i == accounts.len() - 1 {
        assert(accounts.update(i, account).drop_last() =~= accounts.drop_last());
    } else {
        assert(accounts.update(i, account).drop_last() =~= accounts.drop_last().update(i, account));
        lemma_total_staked_update(accounts.drop_last(), i, account);
    }
}

/// The amount that a request names; a claim names none.
spec fn requested_amount(request: Request) -> u64 {
    match request {
        Request::Stake { amount } => amount,
        Request::Unstake { amount } => amount,
        Request::Claim => 0,
    }
}

/// No single step breaks conservation.
pub proof fn lemma_step_conserves(ledger: Ledger, step: Step)
    requires
        ledger.conserved(),
    ensures
        ledger.step(step).conserved(),
{
    match step {
        Step::Open { authority } => {
            if authority.len() == IDENTITY_BYTES {
                lemma_total_staked_push(ledger.accounts, StakeAccountView::opened(authority));
            }
        },
        Step::Act { account, actor, request, now, transfer_succeeded } => {
            if 0 <= account < ledger.accounts.len() {
                let before = ledger.accounts[account];
                match attempt(before, actor, request, now) {
                    Err(_) => {},
                    Ok(update) => {
                        if transfer_succeeded {
                            lemma_principal_follows_transfer(
                                before,
                                actor,
                                requested_amount(request),
                                now,
                            );
                            lemma_total_staked_update(ledger.accounts, account, update.account);
                        }
                    },
                }
            }
        },
    }
}

/// Conservation: whatever operations are asked for, in whatever order, by
/// whomever and at whatever times, and whichever transfers fail, the principal
/// staked on all accounts together stays equal to what was deposited into the
/// stake vault less what was withdrawn from it.
pub proof fn lemma_run_conserves(ledger: Ledger, steps: Seq<Step>)
    requires
        ledger.conserved(),
    ensures
        ledger.run(steps).conserved(),
    decreases steps.len(),
{
    if steps.len() > 0 {
        lemma_run_conserves(ledger, steps.drop_last());
        lemma_step_conserves(ledger.run(steps.drop_last()), steps.last());
    }
}

/// Conservation holds of every ledger that has grown from the empty one.
pub proof fn lemma_conservation(steps: Seq<Step>)
    ensures
        Ledger::empty().run(steps).conserved(),
{
    lemma_run_conserves(Ledger::empty(), steps);
}

/// No single step leaves an account ill formed.
pub proof fn lemma_step_keeps_well_formed(ledger: Ledger, step: Step)
    requires
        ledger.well_formed(),
    ensures
        ledger.step(step).well_formed(),
{
    match step {
        Step::Open { authority } => {},
        Step::Act { account, actor, request, now, transfer_succeeded } => {
            if 0 <= account < ledger.accounts.len() {
                lemma_outcomes_are_well_formed(
                    ledger.accounts[account],
                    actor,
                    requested_amount(request),
                    now,
                );
            }
        },
    }
}

/// In every history every account stays well formed: its fields fit their
/// machine types, and an account without principal has no open accrual
/// window.
pub proof fn lemma_run_keeps_well_formed(ledger: Ledger, steps: Seq<Step>)
    requires
        ledger.well_formed(),
    ensures
        ledger.run(steps).well_formed(),
    decreases steps.len(),
{
    if steps.len() > 0 {
        lemma_run_keeps_well_formed(ledger, steps.drop_last());
        lemma_step_keeps_well_formed(ledger.run(steps.drop_last()), steps.last());
    }
}

} // verus!
