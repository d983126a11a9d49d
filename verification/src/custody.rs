//! Custody transfers that the ledger asks its caller to carry out.

use vstd::prelude::*;

verus! {

/// A holder of tokens that a transfer can name.
#[derive(Clone, Copy, Debug, PartialEq, Eq, Structural)]
pub enum Party {
    /// The participant's own token balance.
    Participant,
    /// The vault that holds all staked principal.
    StakeVault,
    /// The vault that rewards are paid from.
    RewardVault,
}

/// One movement of tokens: `amount` goes from `from` to `to`, signed for by
/// `authority`.
///
/// A vault signs for itself when tokens leave it; the participant signs when
/// tokens leave the participant's balance.
#[derive(Clone, Copy, Debug, PartialEq, Eq, Structural)]
pub struct TransferRequest {
    pub from: Party,
    pub to: Party,
    pub authority: Party,
    pub amount: u64,
}

impl TransferRequest {
    /// The amount that the transfer adds to the stake vault.
    pub open spec fn into_stake_vault(self) -> nat {
        if self.to == Party::StakeVault {
            self.amount as nat
        } else {
            0
        }
    }

    /// The amount that the transfer takes out of the stake vault.
    pub open spec fn out_of_stake_vault(self) -> nat {
        if self.from == Party::StakeVault {
            self.amount as nat
        } else {
            0
        }
    }
}

} // verus!
