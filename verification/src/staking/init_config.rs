//! Creating the staking configuration.
use vstd::prelude::*;

use crate::ledger::{Account, Pubkey};
use crate::staking::{Config, CustomError};

verus! {

/// Bumps found for the configuration and the reward mint.
#[derive(Clone, Copy, Debug)]
pub struct InitConfigBumps {
    pub config: u8,
    pub reward: u8,
}

/// Accounts of the configuration's creation.
#[derive(Clone, Copy, Debug)]
pub struct InitConfig {
    pub signer: Pubkey,
    pub config: Account<Config>,
    pub reward: Pubkey,
}

impl InitConfig {
    /// Writes the configuration.
    pub fn init_config(&mut self, points_per_stake: u8, max_unstake: u8, freeze_period: u32, bumps: InitConfigBumps) -> (r:
        Result<(), CustomError>)
        ensures
            r is Ok,
            final(self).config.data == (Config {
                points_per_stake,
                max_unstake,
                freeze_period,
                rewards_bump: bumps.reward,
                bump: bumps.config,
            }),
            final(self).config.key == old(self).config.key,
            final(self).signer == old(self).signer,
            final(self).reward == old(self).reward,
    {
        self.config.data = Config {
            points_per_stake,
            max_unstake,
            freeze_period,
            rewards_bump: bumps.reward,
            bump: bumps.config,
        };
        Ok(())
    }
}

} // verus!
