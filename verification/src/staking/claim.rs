//! Claiming points as reward tokens.
use vstd::prelude::*;

use crate::ledger::{Account, Mint, Pubkey, Signer, Step, TokenAccount, TokenAction};
use crate::staking::{Config, CustomError, UserAccount};

verus! {

/// Accounts of a claim.
#[derive(Clone, Copy, Debug)]
pub struct Claim {
    pub signer: Pubkey,
    pub user: Account<UserAccount>,
    pub config: Account<Config>,
    pub reward: Mint,
    pub user_reward_mint: TokenAccount,
}

impl Claim {
    /// The minting of the user's points as reward tokens, signed by the
    /// config.
    pub open spec fn claim_action(&self) -> TokenAction {
        TokenAction::MintTo {
            mint: self.reward.key,
            to: self.user_reward_mint.key,
            authority: self.config.key,
            amount: self.user.data.points,
        }
    }

    /// Claims: refused with `NoRewardsToClaim` when the user has no point;
    /// otherwise mints as many reward tokens as the user has points and sets
    /// the staked count to zero. The points themselves are left as they are.
    pub fn claim_it(&mut self) -> (r: Result<Vec<Step>, CustomError>)
        ensures
            old(self).user.data.points == 0 ==> r == Err::<Vec<Step>, CustomError>(
                CustomError::NoRewardsToClaim,
            ) && *final(self) == *old(self),
            old(self).user.data.points > 0 ==> r is Ok && r->Ok_0@ == seq![
                Step { action: old(self).claim_action(), signer: Signer::Config { bump: old(self).config.data.bump }, ignore_failure: false },
            ]
                && final(self).user.data == (UserAccount { staked_amount: 0, ..old(self).user.data }),
            final(self).user.key == old(self).user.key,
            final(self).signer == old(self).signer,
            final(self).config == old(self).config,
            final(self).reward == old(self).reward,
            final(self).user_reward_mint == old(self).user_reward_mint,
    {
        let amount = self.user.data.points;
        if !(amount > 0) {
            return Err(CustomError::NoRewardsToClaim);
        }
        let mut plan: Vec<Step> = Vec::new();
        plan.push(
            Step {
                action: TokenAction::MintTo {
                    mint: self.reward.key,
                    to: self.user_reward_mint.key,
                    authority: self.config.key,
                    amount,
                },
                signer: Signer::Config { bump: self.config.data.bump },
                ignore_failure: false,
            },
        );
        self.user.data.staked_amount = 0;
        Ok(plan)
    }
}

} // verus!
