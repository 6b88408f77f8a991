//! Staking one NFT.
use vstd::prelude::*;

use crate::ledger::{Account, Mint, Pubkey, Signer, Step, TokenAccount, TokenAction};
use crate::staking::{Config, CustomError, StakeAccount, UserAccount};

verus! {

/// Bumps found for the vault and the stake record.
#[derive(Clone, Copy, Debug)]
pub struct StakeBumps {
    pub vault_mint: u8,
    pub stake_acc: u8,
}

/// Accounts of a stake.
#[derive(Clone, Copy, Debug)]
pub struct Stake {
    pub signer: Pubkey,
    pub user: Account<UserAccount>,
    pub config: Account<Config>,
    pub mint1: Mint,
    pub user_mint: TokenAccount,
    pub vault_mint: TokenAccount,
    pub stake_acc: Account<StakeAccount>,
}

/// The user account after a stake: one more NFT staked, saturating at the
/// count's maximum.
pub open spec fn staked_user(user: UserAccount) -> UserAccount {
    UserAccount {
        staked_amount: if user.staked_amount == u8::MAX {
            u8::MAX
        } else {
            (user.staked_amount + 1) as u8
        },
        ..user
    }
}

impl Stake {
    /// The NFT's move from the user's account into the vault.
    pub open spec fn stake_action(&self) -> TokenAction {
        TokenAction::Transfer {
            from: self.user_mint.key,
            to: self.vault_mint.key,
            authority: self.signer,
            amount: 1,
        }
    }

    /// Stakes one NFT at time `unix_timestamp` (the clock's reading): the
    /// NFT moves into the vault, the stake is recorded with that time, and
    /// the user's staked count grows by one, saturating at its maximum.
    pub fn stake_it(&mut self, bump: StakeBumps, unix_timestamp: i64) -> (r: Result<Vec<Step>, CustomError>)
        ensures
            r is Ok,
            r->Ok_0@ == seq![Step { action: old(self).stake_action(), signer: Signer::Transaction, ignore_failure: false }],
            final(self).stake_acc.data == (StakeAccount {
                owner: old(self).signer,
                mint: old(self).mint1.key,
                last_staked_timestamp: unix_timestamp,
                bump: bump.stake_acc,
            }),
            final(self).user.data == staked_user(old(self).user.data),
            final(self).stake_acc.key == old(self).stake_acc.key,
            final(self).user.key == old(self).user.key,
            final(self).signer == old(self).signer,
            final(self).config == old(self).config,
            final(self).mint1 == old(self).mint1,
            final(self).user_mint == old(self).user_mint,
            final(self).vault_mint == old(self).vault_mint,
    {
        let mut plan: Vec<Step> = Vec::new();
        plan.push(
            Step {
                action: TokenAction::Transfer {
                    from: self.user_mint.key,
                    to: self.vault_mint.key,
                    authority: self.signer,
                    amount: 1,
                },
                signer: Signer::Transaction,
                ignore_failure: false,
            },
        );
        self.stake_acc.data = StakeAccount {
            owner: self.signer,
            mint: self.mint1.key,
            last_staked_timestamp: unix_timestamp,
            bump: bump.stake_acc,
        };
        self.user.data.staked_amount = self.user.data.staked_amount.saturating_add(1);
        Ok(plan)
    }
}

} // verus!
