//! NFT staking: users lock NFTs in a vault, earn points when they unstake,
//! and claim their points as reward tokens.
use vstd::prelude::*;

use crate::ledger::{apply_action, apply_actions, carry_out, consistent, lemma_apply_pair, refuses, Account, Ledger, Pubkey};
use crate::staking::claim::Claim;
use crate::staking::stake::{staked_user, Stake};
use crate::staking::unstake::{unstake_result, unstaked_user, UnStake};

pub mod claim;
pub mod init_config;
pub mod init_user;
pub mod stake;
pub mod unstake;

verus! {

/// Errors of the staking program.
#[derive(Clone, Copy, Debug, PartialEq, Eq, Structural)]
pub enum CustomError {
    NoRewardsToClaim,
    NotFrozen,
    NothingToUnstake,
    Overflow,
}

/// The program's configuration account.
#[derive(Clone, Copy, Debug, PartialEq, Eq)]
pub struct Config {
    /// Points earned by each unstaked NFT.
    pub points_per_stake: u8,
    pub max_unstake: u8,
    pub freeze_period: u32,
    pub rewards_bump: u8,
    pub bump: u8,
}

/// A user's staking account.
#[derive(Clone, Copy, Debug, PartialEq, Eq)]
pub struct UserAccount {
    pub points: u64,
    pub staked_amount: u8,
    pub bump: u8,
}

/// The record of one staked NFT.
#[derive(Clone, Copy, Debug, PartialEq, Eq)]
pub struct StakeAccount {
    pub owner: Pubkey,
    pub mint: Pubkey,
    pub last_staked_timestamp: i64,
    pub bump: u8,
}

/// Unstaking undoes staking on the user's count and pays the points: after
/// a stake recorded at a time past the freeze period, an unstake succeeds
/// (unless the points would overflow) and leaves the user with the count it
/// had and `points_per_stake` more points.
pub proof fn lemma_unstake_after_stake(user: UserAccount, config: Config, stake: StakeAccount)
    requires
        user.staked_amount < u8::MAX,
        stake.last_staked_timestamp >= config.freeze_period as i64,
        user.points + config.points_per_stake <= u64::MAX,
    ensures
        unstake_result(staked_user(user), config, stake) is Ok,
        unstaked_user(staked_user(user), config, stake) == (UserAccount {
            points: (user.points + config.points_per_stake) as u64,
            ..user
        }),
{
}

/// The staked NFT comes back: on a consistent ledger, when the stake's
/// transfer into the vault goes through and the vault belongs to the config, the unstake's transfer out
/// of the same vault to the same account goes through too and leaves every
/// token balance as it was.
pub proof fn lemma_unstake_returns_nft(s: Stake, u: UnStake, l: Ledger)
    requires
        u.vault_mint.key == s.vault_mint.key,
        u.user_mint.key == s.user_mint.key,
        consistent(l),
        (l.owner_of)(s.vault_mint.key) == u.config.key,
    ensures
        apply_action(l, s.stake_action()) is Some ==> apply_actions(
            l,
            seq![s.stake_action(), u.unstake_action()],
        ) == Some(Ledger { tokens: l.tokens, ..l }),
{
    assert(0 <= (l.tokens)(s.user_mint.key) <= u64::MAX);
    assert(0 <= (l.tokens)(s.vault_mint.key) <= u64::MAX);
    lemma_apply_pair(l, s.stake_action(), u.unstake_action());
    if let Some(l1) = apply_action(l, s.stake_action()) {
        assert(!refuses(l1, u.unstake_action()));
        let r = carry_out(l1, u.unstake_action());
        assert(r.tokens =~= l.tokens);
        assert(r == l);
    }
}

/// A claim does not spend the points: claiming again right after mints the
/// same amount once more.
pub proof fn lemma_claim_keeps_points(c: Claim)
    requires
        c.user.data.points > 0,
    ensures
        ({
            let after = Claim {
                user: Account { data: UserAccount { staked_amount: 0, ..c.user.data }, ..c.user },
                ..c
            };
            after.claim_action() == c.claim_action()
        }),
{
}

} // verus!
