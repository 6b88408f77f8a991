//! Delisting an NFT: it goes back to its creator and the vault is closed.
use vstd::prelude::*;

use crate::ledger::{
    apply_action, apply_actions, apply_step, apply_steps, carry_out, consistent, lemma_apply_pair, lemma_apply_steps,
    lemma_steps_single, refuses, signed, Account, Ledger, Mint, Pubkey, Signer, Step,
    TokenAccount, TokenAction,
};
use crate::marketplace::list::List;
use crate::marketplace::{ListingAccount, Marketplace};

verus! {

/// Accounts of a delisting.
#[derive(Clone, Debug)]
pub struct Delist {
    pub creater: Pubkey,
    pub market_place: Account<Marketplace>,
    pub creater_mint: Mint,
    pub creater_nft: TokenAccount,
    pub nft_vault: TokenAccount,
    pub list_account: Account<ListingAccount>,
}

impl Delist {
    /// The NFT's move back from the vault to the creator, signed by the
    /// listing.
    pub open spec fn delist_nft_action(&self) -> TokenAction {
        TokenAction::TransferChecked {
            from: self.nft_vault.key,
            to: self.creater_nft.key,
            mint: self.creater_mint.key,
            authority: self.list_account.key,
            amount: 1,
            decimals: self.creater_mint.decimals,
        }
    }

    /// The vault's closing to the creator.
    pub open spec fn close_vault_action(&self) -> TokenAction {
        TokenAction::CloseAccount {
            account: self.nft_vault.key,
            destination: self.creater,
            authority: self.list_account.key,
        }
    }

    /// The listing's seeds: the listing prefix, the marketplace, the NFT's
    /// mint, and the bump when `bump` is given.
    pub open spec fn listing_signer(&self, bump: Option<u8>) -> Signer {
        Signer::Listing { marketplace: self.market_place.key, mint: self.creater_mint.key, bump }
    }

    /// The step that returns the NFT, signed with the listing's bump.
    pub open spec fn delist_nft_step(&self) -> Step {
        Step {
            action: self.delist_nft_action(),
            signer: self.listing_signer(Some(self.list_account.data.listing_bump)),
            ignore_failure: false,
        }
    }

    /// The step that closes the vault, signed with the listing's seeds
    /// without its bump.
    pub open spec fn close_vault_step(&self) -> Step {
        Step { action: self.close_vault_action(), signer: self.listing_signer(None), ignore_failure: false }
    }

    /// The listing account closed to the creator, as its `close = creater`
    /// constraint does when the instruction ends.
    pub open spec fn close_listing_step(&self) -> Step {
        Step {
            action: TokenAction::CloseProgramAccount { account: self.list_account.key, destination: self.creater },
            signer: Signer::Transaction,
            ignore_failure: false,
        }
    }

    /// The steps of a delisting.
    pub open spec fn delist_steps(&self) -> Seq<Step> {
        seq![self.delist_nft_step(), self.close_vault_step(), self.close_listing_step()]
    }

    /// Moves the NFT back to the creator.
    pub fn delist_nft(&self) -> (r: Step)
        ensures
            r == self.delist_nft_step(),
    {
        let action = {
            TokenAction::TransferChecked {
                from: self.nft_vault.key,
                to: self.creater_nft.key,
                mint: self.creater_mint.key,
                authority: self.list_account.key,
                amount: 1,
                decimals: self.creater_mint.decimals,
            }
        };
        Step { action, signer: Signer::Listing { marketplace: self.market_place.key, mint: self.creater_mint.key, bump: Some(self.list_account.data.listing_bump) }, ignore_failure: false }
    }

    /// Closes the emptied vault to the creator.
    pub fn close_vault(&self) -> (r: Step)
        ensures
            r == self.close_vault_step(),
    {
        let action = {
            TokenAction::CloseAccount {
                account: self.nft_vault.key,
                destination: self.creater,
                authority: self.list_account.key,
            }
        };
        Step { action, signer: Signer::Listing { marketplace: self.market_place.key, mint: self.creater_mint.key, bump: None }, ignore_failure: false }
    }
}

/// The `delist` instruction: the NFT goes back to the creator, the vault is
/// closed to the creator, and so is the listing account.
pub fn delist(ctx: &Delist) -> (r: Vec<Step>)
    ensures
        r@ == ctx.delist_steps(),
{
    let mut plan: Vec<Step> = Vec::new();
    plan.push(ctx.delist_nft());
    plan.push(ctx.close_vault());
    plan.push(
        Step {
            action: TokenAction::CloseProgramAccount { account: ctx.list_account.key, destination: ctx.creater },
            signer: Signer::Transaction,
            ignore_failure: false,
        },
    );
    assert(plan@ =~= ctx.delist_steps());
    plan
}

/// The NFT's return undoes its deposit. Listing creates the NFT vault, so it starts
/// empty, and the vault belongs to the listing. On a consistent ledger, when
/// the listing's deposit of the NFT goes through, the delisting's return of
/// it goes through too, every token balance is as before and the vault is
/// empty again.
pub proof fn lemma_return_undoes_deposit(li: List, d: Delist, l: Ledger)
    requires
        consistent(l),
        d.nft_vault.key == li.nft_vault_account.key,
        d.creater_nft.key == li.creater_nft_account.key,
        d.creater_mint == li.creater_mint,
        li.creater_nft_account.key != li.nft_vault_account.key,
        (l.tokens)(li.nft_vault_account.key) == 0,
        (l.owner_of)(li.nft_vault_account.key) == d.list_account.key,
    ensures
        apply_action(l, li.deposite_nft_action()) is Some ==> (apply_actions(
            l,
            seq![li.deposite_nft_action(), d.delist_nft_action()],
        ) matches Some(r) && r.tokens == l.tokens && (r.tokens)(d.nft_vault.key) == 0),
{
    assert(0 <= (l.tokens)(li.creater_nft_account.key) <= u64::MAX);
    lemma_apply_pair(l, li.deposite_nft_action(), d.delist_nft_action());
    if let Some(l1) = apply_action(l, li.deposite_nft_action()) {
        assert(!refuses(l1, d.delist_nft_action()));
        let r = carry_out(l1, d.delist_nft_action());
        assert(r.tokens =~= l.tokens);
    }
}

/// Delisting's return of the NFT undoes listing, signatures included. The
/// creator signs the listing's transaction, and the listing's seeds with its
/// bump derive the listing's address, as its seeds constraint checks. On a
/// consistent ledger, with the NFT vault created empty by the listing and
/// belonging to the listing, when the listing's step goes through, the
/// delisting's `delist_nft` step goes through too: the creator's account has
/// the NFT back, every token balance is as before and the vault is empty.
pub proof fn lemma_delist_undoes_list(li: List, d: Delist, l: Ledger)
    requires
        consistent(l),
        (l.tx_signers)(li.creater),
        (l.derived)(d.listing_signer(Some(d.list_account.data.listing_bump))) == Some(d.list_account.key),
        d.nft_vault.key == li.nft_vault_account.key,
        d.creater_nft.key == li.creater_nft_account.key,
        d.creater_mint == li.creater_mint,
        li.creater_nft_account.key != li.nft_vault_account.key,
        (l.tokens)(li.nft_vault_account.key) == 0,
        (l.owner_of)(li.nft_vault_account.key) == d.list_account.key,
    ensures
        ({
            let deposit = Step { action: li.deposite_nft_action(), signer: Signer::Transaction, ignore_failure: false };
            apply_steps(l, seq![deposit]) matches Some(l1) ==> (apply_steps(l1, seq![d.delist_nft_step()]) matches Some(
                r,
            ) && r.tokens == l.tokens && (r.tokens)(d.nft_vault.key) == 0 && (r.tokens)(d.creater_nft.key) == (
            l.tokens)(d.creater_nft.key))
        }),
{
    let deposit = Step { action: li.deposite_nft_action(), signer: Signer::Transaction, ignore_failure: false };
    lemma_steps_single(l, deposit);
    lemma_return_undoes_deposit(li, d, l);
    lemma_apply_pair(l, li.deposite_nft_action(), d.delist_nft_action());
    if let Some(l1) = apply_step(l, deposit) {
        lemma_steps_single(l1, d.delist_nft_step());
        assert(signed(l1, d.delist_nft_step()));
    }
}

/// The vault's closing is signed with the listing's seeds but without its
/// bump. Those seeds do not derive the listing's address (the address that
/// the seeds with the bump derive), and a program's address signs no
/// transaction, so the runtime refuses the whole delisting.
pub proof fn lemma_delist_close_unsigned(d: Delist, l: Ledger)
    requires
        !(l.tx_signers)(d.list_account.key),
        (l.derived)(d.listing_signer(None)) != Some(d.list_account.key),
    ensures
        apply_steps(l, d.delist_steps()) is None,
{
    let st = d.delist_steps();
    lemma_apply_steps(l, st);
    assert(!signed(l, st[1]));
}

} // verus!
