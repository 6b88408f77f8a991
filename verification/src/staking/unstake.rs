//! Unstaking one NFT.
use vstd::prelude::*;

use crate::ledger::{Account, Mint, Pubkey, Signer, Step, TokenAccount, TokenAction};
use crate::staking::{Config, CustomError, StakeAccount, UserAccount};

verus! {

/// Bump found for the vault.
#[derive(Clone, Copy, Debug)]
pub struct UnStakeBumps {
    pub vault_mint: u8,
}

/// Accounts of an unstake.
#[derive(Clone, Copy, Debug)]
pub struct UnStake {
    pub signer: Pubkey,
    pub user: Account<UserAccount>,
    pub config: Account<Config>,
    pub mint1: Mint,
    pub user_mint: TokenAccount,
    pub vault_mint: TokenAccount,
    pub stake_acc: Account<StakeAccount>,
}

/// What an unstake answers: `NotFrozen` when the stake's timestamp is below
/// the freeze period, `NothingToUnstake` when nothing is staked, `Overflow`
/// when the points would pass their maximum.
pub open spec fn unstake_result(user: UserAccount, config: Config, stake: StakeAccount) -> Result<(), CustomError> {
    if stake.last_staked_timestamp < config.freeze_period as i64 {
        Err(CustomError::NotFrozen)
    } else if user.staked_amount == 0 {
        Err(CustomError::NothingToUnstake)
    } else if user.points + config.points_per_stake > u64::MAX {
        Err(CustomError::Overflow)
    } else {
        Ok(())
    }
}

/// The user account after an unstake: one NFT fewer once the first two
/// checks pass, and `points_per_stake` more points when the unstake succeeds.
pub open spec fn unstaked_user(user: UserAccount, config: Config, stake: StakeAccount) -> UserAccount {
    if stake.last_staked_timestamp < config.freeze_period as i64 || user.staked_amount == 0 {
        user
    } else if user.points + config.points_per_stake > u64::MAX {
        UserAccount { staked_amount: (user.staked_amount - 1) as u8, ..user }
    } else {
        UserAccount {
            staked_amount: (user.staked_amount - 1) as u8,
            points: (user.points + config.points_per_stake) as u64,
            ..user
        }
    }
}

impl UnStake {
    /// The NFT's move back from the vault to the user, signed by the config.
    pub open spec fn unstake_action(&self) -> TokenAction {
        TokenAction::Transfer {
            from: self.vault_mint.key,
            to: self.user_mint.key,
            authority: self.config.key,
            amount: 1,
        }
    }

    /// The stake account closed to the user's account, as its `close = user`
    /// constraint does when the instruction ends.
    pub open spec fn close_stake_step(&self) -> Step {
        Step {
            action: TokenAction::CloseProgramAccount { account: self.stake_acc.key, destination: self.user.key },
            signer: Signer::Transaction,
            ignore_failure: false,
        }
    }

    /// Unstakes one NFT: checks that the stake is past the freeze period and
    /// that something is staked, takes one from the staked count, credits
    /// `points_per_stake` points and returns the NFT to the user; the stake
    /// account is then closed to the user's account.
    pub fn unstake_it(&mut self, bump: UnStakeBumps) -> (r: Result<Vec<Step>, CustomError>)
        ensures
            match (r, unstake_result(old(self).user.data, old(self).config.data, old(self).stake_acc.data)) {
                (Ok(plan), Ok(())) => plan@ == seq![
                    Step { action: old(self).unstake_action(), signer: Signer::Config { bump: old(self).config.data.bump }, ignore_failure: false },
                    old(self).close_stake_step(),
                ],
                (Err(e), Err(expected)) => e == expected,
                _ => false,
            },
            final(self).user.data == unstaked_user(
                old(self).user.data,
                old(self).config.data,
                old(self).stake_acc.data,
            ),
            final(self).user.key == old(self).user.key,
            final(self).signer == old(self).signer,
            final(self).config == old(self).config,
            final(self).mint1 == old(self).mint1,
            final(self).user_mint == old(self).user_mint,
            final(self).vault_mint == old(self).vault_mint,
            final(self).stake_acc == old(self).stake_acc,
    {
        if self.stake_acc.data.last_staked_timestamp < self.config.data.freeze_period as i64 {
            return Err(CustomError::NotFrozen);
        }
        if self.user.data.staked_amount == 0 {
            return Err(CustomError::NothingToUnstake);
        }
        match self.user.data.staked_amount.checked_sub(1) {
            Some(n) => {
                self.user.data.staked_amount = n;
            },
            None => {
                return Err(CustomError::Overflow);
            },
        }
        match self.user.data.points.checked_add(self.config.data.points_per_stake as u64) {
            Some(p) => {
                self.user.data.points = p;
            },
            None => {
                return Err(CustomError::Overflow);
            },
        }
        let mut plan: Vec<Step> = Vec::new();
        plan.push(
            Step {
                action: TokenAction::Transfer {
                    from: self.vault_mint.key,
                    to: self.user_mint.key,
                    authority: self.config.key,
                    amount: 1,
                },
                signer: Signer::Config { bump: self.config.data.bump },
                ignore_failure: false,
            },
        );
        plan.push(
            Step {
                action: TokenAction::CloseProgramAccount { account: self.stake_acc.key, destination: self.user.key },
                signer: Signer::Transaction,
                ignore_failure: false,
            },
        );
        Ok(plan)
    }
}

} // verus!
