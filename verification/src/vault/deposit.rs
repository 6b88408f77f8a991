//! Depositing lamports into a vault.
use vstd::prelude::*;

use crate::ledger::{Account, Pubkey, Signer, Step, TokenAction};
use crate::vault::VaultState;

verus! {

/// Accounts of a deposit.
#[derive(Clone, Copy, Debug)]
pub struct Deposit {
    pub signer: Pubkey,
    pub vault_state: Account<VaultState>,
    pub vault: Pubkey,
}

impl Deposit {
    /// The lamport transfer of a deposit.
    pub open spec fn deposit_action(&self, amount: u64) -> TokenAction {
        TokenAction::SystemTransfer { from: self.signer, to: self.vault, lamports: amount }
    }

    /// The step of a deposit: the user, a transaction signer, pays.
    pub open spec fn deposit_step(&self, amount: u64) -> Step {
        Step { action: self.deposit_action(amount), signer: Signer::Transaction, ignore_failure: false }
    }

    /// Moves `amount` lamports from the user to the vault; a refused
    /// transfer is this method's error.
    pub fn deposit(&self, amount: u64) -> (r: Step)
        ensures
            r == self.deposit_step(amount),
    {
        let action = {
            TokenAction::SystemTransfer { from: self.signer, to: self.vault, lamports: amount }
        };
        Step { action, signer: Signer::Transaction, ignore_failure: false }
    }
}

} // verus!
