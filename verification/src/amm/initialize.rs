//! Creating a pool.
use vstd::prelude::*;

use crate::amm::{LPErrors, Pool};
use crate::ledger::{Account, Mint, Pubkey};

verus! {

/// Bumps found for the accounts that `init_pool` creates.
#[derive(Clone, Copy, Debug)]
pub struct InitializePoolBumps {
    pub pool_account: u8,
    pub lp_mint: u8,
}

/// Accounts of the pool creation.
#[derive(Clone, Copy, Debug)]
pub struct InitializePool {
    pub initializer: Pubkey,
    pub mint_x: Mint,
    pub mint_y: Mint,
    pub pool_account: Account<Pool>,
}

impl InitializePool {
    /// Writes the new pool's state: unlocked, with the given seed, fee, admin
    /// and bumps, trading the two given mints.
    pub fn init_pool(&mut self, seed: u64, fee: u16, admin: Option<Pubkey>, bump: InitializePoolBumps) -> (r:
        Result<(), LPErrors>)
        ensures
            r is Ok,
            final(self).pool_account.data == (Pool {
                seed,
                authority: admin,
                mint_x: old(self).mint_x.key,
                mint_y: old(self).mint_y.key,
                fee,
                locked: false,
                pool_bump: bump.pool_account,
                lp_mint_bump: bump.lp_mint,
            }),
            final(self).pool_account.key == old(self).pool_account.key,
            final(self).initializer == old(self).initializer,
            final(self).mint_x == old(self).mint_x,
            final(self).mint_y == old(self).mint_y,
    {
        self.pool_account.data = Pool {
            seed,
            authority: admin,
            mint_x: self.mint_x.key,
            mint_y: self.mint_y.key,
            fee,
            locked: false,
            pool_bump: bump.pool_account,
            lp_mint_bump: bump.lp_mint,
        };
        Ok(())
    }
}

} // verus!
