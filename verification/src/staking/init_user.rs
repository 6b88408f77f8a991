//! Creating a user's staking account.
use vstd::prelude::*;

use crate::ledger::{Account, Pubkey};
use crate::staking::{CustomError, UserAccount};

verus! {

/// Bump found for the user account.
#[derive(Clone, Copy, Debug)]
pub struct InitializeUserBumps {
    pub user: u8,
}

/// Accounts of the user account's creation.
#[derive(Clone, Copy, Debug)]
pub struct InitializeUser {
    pub signer: Pubkey,
    pub user: Account<UserAccount>,
}

impl InitializeUser {
    /// Starts the user with no points and nothing staked.
    pub fn init_user(&mut self, bumps: InitializeUserBumps) -> (r: Result<(), CustomError>)
        ensures
            r is Ok,
            final(self).user.data == (UserAccount { points: 0, staked_amount: 0, bump: bumps.user }),
            final(self).user.key == old(self).user.key,
            final(self).signer == old(self).signer,
    {
        self.user.data = UserAccount { points: 0, staked_amount: 0, bump: bumps.user };
        Ok(())
    }
}

} // verus!
