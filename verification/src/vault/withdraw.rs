//! Withdrawing lamports from a vault.
use vstd::prelude::*;

use crate::ledger::{Account, Pubkey, Signer, Step, TokenAction};
use crate::vault::VaultState;

verus! {

/// Accounts of a withdrawal.
#[derive(Clone, Copy, Debug)]
pub struct Withdraw {
    pub signer: Pubkey,
    pub vault_state: Account<VaultState>,
    pub vault: Pubkey,
}

impl Withdraw {
    /// The lamport transfer of a withdrawal.
    pub open spec fn withdraw_action(&self, amount: u64) -> TokenAction {
        TokenAction::SystemTransfer { from: self.vault, to: self.signer, lamports: amount }
    }

    /// The vault's own signature: its seeds are `vault`, the vault's state
    /// and the vault's bump.
    pub open spec fn vault_signer(&self) -> Signer {
        Signer::Vault { state: self.vault_state.key, bump: self.vault_state.data.vault_bump }
    }

    /// The step of a withdrawal.
    pub open spec fn withdraw_step(&self, amount: u64) -> Step {
        Step { action: self.withdraw_action(amount), signer: self.vault_signer(), ignore_failure: false }
    }

    /// Moves `amount` lamports from the vault back to the user, signed by the
    /// vault; a refused transfer is this method's error.
    pub fn withdraw(&self, amount: u64) -> (r: Step)
        ensures
            r == self.withdraw_step(amount),
    {
        let action = {
            TokenAction::SystemTransfer { from: self.vault, to: self.signer, lamports: amount }
        };
        Step { action, signer: Signer::Vault { state: self.vault_state.key, bump: self.vault_state.data.vault_bump }, ignore_failure: false }
    }
}

} // verus!
