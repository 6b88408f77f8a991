//! Listing an NFT: its price is recorded and the NFT moves into a vault
//! owned by the listing.
use vstd::prelude::*;

use crate::ledger::{Account, Mint, Pubkey, Signer, Step, TokenAccount, TokenAction};
use crate::marketplace::{ListingAccount, Marketplace};

verus! {

/// Bump found for the listing account.
#[derive(Clone, Copy, Debug)]
pub struct ListBumps {
    pub list_account: u8,
}

/// Accounts of a listing.
#[derive(Clone, Debug)]
pub struct List {
    pub creater: Pubkey,
    pub creater_mint: Mint,
    pub marketplace: Account<Marketplace>,
    pub list_account: Account<ListingAccount>,
    pub creater_nft_account: TokenAccount,
    pub nft_vault_account: TokenAccount,
}

impl List {
    /// The NFT's move from the creator's account into the listing's vault.
    pub open spec fn deposite_nft_action(&self) -> TokenAction {
        TokenAction::TransferChecked {
            from: self.creater_nft_account.key,
            to: self.nft_vault_account.key,
            mint: self.creater_mint.key,
            authority: self.creater,
            amount: 1,
            decimals: self.creater_mint.decimals,
        }
    }

    /// Records the listing: the creator, the NFT's mint and its price.
    pub fn initialize_list(&mut self, price: u16, bumps: ListBumps)
        ensures
            final(self).list_account.data == (ListingAccount {
                creater: old(self).creater,
                nft_mint: old(self).creater_mint.key,
                nft_price: price,
                listing_bump: bumps.list_account,
            }),
            final(self).list_account.key == old(self).list_account.key,
            final(self).creater == old(self).creater,
            final(self).creater_mint == old(self).creater_mint,
            final(self).marketplace == old(self).marketplace,
            final(self).creater_nft_account == old(self).creater_nft_account,
            final(self).nft_vault_account == old(self).nft_vault_account,
    {
        self.list_account.data = ListingAccount {
            creater: self.creater,
            nft_mint: self.creater_mint.key,
            nft_price: price,
            listing_bump: bumps.list_account,
        };
    }

    /// Moves the one NFT into the listing's vault.
    pub fn deposite_nft(&self) -> (r: Step)
        ensures
            r == (Step { action: self.deposite_nft_action(), signer: Signer::Transaction, ignore_failure: false }),
    {
        let action = {
            TokenAction::TransferChecked {
                from: self.creater_nft_account.key,
                to: self.nft_vault_account.key,
                mint: self.creater_mint.key,
                authority: self.creater,
                amount: 1,
                decimals: self.creater_mint.decimals,
            }
        };
        Step { action, signer: Signer::Transaction, ignore_failure: false }
    }
}

/// The `listing` instruction: records the listing, then moves the NFT into
/// the listing's vault.
pub fn listing(ctx: &mut List, price: u16, bumps: ListBumps) -> (r: Vec<Step>)
    ensures
        final(ctx).list_account.data == (ListingAccount {
            creater: old(ctx).creater,
            nft_mint: old(ctx).creater_mint.key,
            nft_price: price,
            listing_bump: bumps.list_account,
        }),
        final(ctx).list_account.key == old(ctx).list_account.key,
        final(ctx).creater == old(ctx).creater,
        final(ctx).creater_mint == old(ctx).creater_mint,
        final(ctx).marketplace == old(ctx).marketplace,
        final(ctx).creater_nft_account == old(ctx).creater_nft_account,
        final(ctx).nft_vault_account == old(ctx).nft_vault_account,
        r@ == seq![Step { action: old(ctx).deposite_nft_action(), signer: Signer::Transaction, ignore_failure: false }],
{
    ctx.initialize_list(price, bumps);
    let mut plan: Vec<Step> = Vec::new();
    plan.push(ctx.deposite_nft());
    plan
}

} // verus!
