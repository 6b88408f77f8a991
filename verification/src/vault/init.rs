//! Creating a vault.
use vstd::prelude::*;

use crate::ledger::{Account, Pubkey};
use crate::vault::VaultState;

verus! {

/// Bumps found for the vault's state and the vault.
#[derive(Clone, Copy, Debug)]
pub struct InitBumps {
    pub vault_state: u8,
    pub vault: u8,
}

/// Accounts of a vault's creation.
#[derive(Clone, Copy, Debug)]
pub struct Init {
    pub signer: Pubkey,
    pub vault_state: Account<VaultState>,
    pub vault: Pubkey,
}

impl Init {
    /// Records the two bumps.
    pub fn init(&mut self, bumps: InitBumps)
        ensures
            final(self).vault_state.data == (VaultState { vault_bump: bumps.vault, state_bump: bumps.vault_state }),
            final(self).vault_state.key == old(self).vault_state.key,
            final(self).signer == old(self).signer,
            final(self).vault == old(self).vault,
    {
        self.vault_state.data.vault_bump = bumps.vault;
        self.vault_state.data.state_bump = bumps.vault_state;
    }
}

} // verus!
