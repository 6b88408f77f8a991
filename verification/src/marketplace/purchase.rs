//! Buying a listed NFT.
use vstd::prelude::*;

use crate::ledger::{
    apply_actions, lemma_apply_pair, steps_of, Account, Ledger, Mint, Pubkey, Signer, Step, TokenAccount, TokenAction,
};
use crate::marketplace::{ListingAccount, Marketplace};

verus! {

/// Accounts of a purchase.
#[derive(Clone, Debug)]
pub struct PurchaseNFT {
    pub creater: Pubkey,
    pub buyer: Pubkey,
    pub market_place: Account<Marketplace>,
    pub nft_mint: Mint,
    pub listing_account: Account<ListingAccount>,
    pub nft_vault: TokenAccount,
    pub buyer_nft_account: TokenAccount,
    pub treasury_account: Pubkey,
    pub reward_account: Mint,
}

/// The marketplace's cut of a sale: `fees` basis points of the price,
/// rounded down.
pub open spec fn platform_fee_of(fees: u16, price: u16) -> int {
    (fees as int * price as int) / 10000
}

/// Computes the marketplace's cut of a sale at `price` with fee `fees`.
pub fn platform_fee(fees: u16, price: u16) -> (r: u64)
    ensures
        r == platform_fee_of(fees, price),
{
    let fees64: u64 = fees as u64;
    let price64: u64 = price as u64;
    assert(fees64 * price64 <= 0xffff * 0xffff) by (nonlinear_arith)
        requires
            fees64 <= 0xffff,
            price64 <= 0xffff,
    ;
    match fees64.checked_mul(price64) {
        Some(product) => product / 10000,
        None => 0,
    }
}

impl PurchaseNFT {
    /// The buyer's two payments: the fee to the treasury, then the price to
    /// the creator.
    pub open spec fn deposite_amount_actions(&self) -> Seq<TokenAction> {
        seq![
            TokenAction::SystemTransfer {
                from: self.buyer,
                to: self.treasury_account,
                lamports: platform_fee_of(self.market_place.data.fees, self.listing_account.data.nft_price) as u64,
            },
            TokenAction::SystemTransfer {
                from: self.buyer,
                to: self.creater,
                lamports: self.listing_account.data.nft_price as u64,
            },
        ]
    }

    /// The NFT's move from the vault to the buyer's address, signed by the
    /// listing.
    pub open spec fn transfer_nft_action(&self) -> TokenAction {
        TokenAction::TransferChecked {
            from: self.nft_vault.key,
            to: self.buyer,
            mint: self.nft_mint.key,
            authority: self.listing_account.key,
            amount: 1,
            decimals: self.nft_mint.decimals,
        }
    }

    /// The vault's closing to the creator.
    pub open spec fn close_accounts_action(&self) -> TokenAction {
        TokenAction::CloseAccount {
            account: self.nft_vault.key,
            destination: self.creater,
            authority: self.listing_account.key,
        }
    }

    /// The buyer pays the marketplace fee to the treasury and the price to
    /// the creator.
    pub fn deposite_amount(&self) -> (r: Vec<Step>)
        ensures
            r@ == steps_of(self.deposite_amount_actions(), seq![Signer::Transaction, Signer::Transaction], false),
    {
        let platform_fee = platform_fee(self.market_place.data.fees, self.listing_account.data.nft_price);
        let nft_price: u64 = self.listing_account.data.nft_price as u64;
        let mut plan: Vec<Step> = Vec::new();
        plan.push(
            Step {
                action: TokenAction::SystemTransfer { from: self.buyer, to: self.treasury_account, lamports: platform_fee },
                signer: Signer::Transaction,
                ignore_failure: false,
            },
        );
        plan.push(
            Step {
                action: TokenAction::SystemTransfer { from: self.buyer, to: self.creater, lamports: nft_price },
                signer: Signer::Transaction,
                ignore_failure: false,
            },
        );
        assert(plan@ =~= steps_of(self.deposite_amount_actions(), seq![Signer::Transaction, Signer::Transaction], false));
        plan
    }

    /// Moves the NFT to the buyer.
    pub fn transfer_nft(&self) -> (r: Step)
        ensures
            r == (Step { action: self.transfer_nft_action(), signer: Signer::Listing { marketplace: self.market_place.key, mint: self.nft_mint.key, bump: Some(self.listing_account.data.listing_bump) }, ignore_failure: false }),
    {
        let action = {
            TokenAction::TransferChecked {
                from: self.nft_vault.key,
                to: self.buyer,
                mint: self.nft_mint.key,
                authority: self.listing_account.key,
                amount: 1,
                decimals: self.nft_mint.decimals,
            }
        };
        Step { action, signer: Signer::Listing { marketplace: self.market_place.key, mint: self.nft_mint.key, bump: Some(self.listing_account.data.listing_bump) }, ignore_failure: false }
    }

    /// Closes the vault to the creator.
    pub fn close_accounts(&self) -> (r: Step)
        ensures
            r == (Step { action: self.close_accounts_action(), signer: Signer::Listing { marketplace: self.market_place.key, mint: self.nft_mint.key, bump: None }, ignore_failure: false }),
    {
        let action = {
            TokenAction::CloseAccount {
                account: self.nft_vault.key,
                destination: self.creater,
                authority: self.listing_account.key,
            }
        };
        Step { action, signer: Signer::Listing { marketplace: self.market_place.key, mint: self.nft_mint.key, bump: None }, ignore_failure: false }
    }
}

/// The marketplace never takes more than the price while its fee is at most
/// 10000 basis points.
pub proof fn lemma_fee_at_most_price(fees: u16, price: u16)
    requires
        fees <= 10000,
    ensures
        0 <= platform_fee_of(fees, price) <= price,
{
    assert(fees as int * price as int <= 10000 * price as int) by (nonlinear_arith)
        requires
            fees <= 10000,
    ;
    assert(0 <= fees as int * price as int) by (nonlinear_arith);
}

/// A purchase's payments: refused when the buyer holds fewer lamports than
/// the fee plus the price; when the runtime carries them out, the buyer pays
/// the fee plus the price, the treasury gains the fee and the creator the
/// price; no other lamport balance moves and no token moves.
pub proof fn lemma_purchase_payments(p: PurchaseNFT, l: Ledger)
    requires
        p.buyer != p.treasury_account,
        p.buyer != p.creater,
        p.treasury_account != p.creater,
    ensures
        (l.lamports)(p.buyer) < platform_fee_of(p.market_place.data.fees, p.listing_account.data.nft_price)
            + p.listing_account.data.nft_price ==> apply_actions(l, p.deposite_amount_actions()) is None,
        apply_actions(l, p.deposite_amount_actions()) matches Some(r) ==> {
            let fee = platform_fee_of(p.market_place.data.fees, p.listing_account.data.nft_price);
            &&& (r.lamports)(p.buyer) == (l.lamports)(p.buyer) - fee - p.listing_account.data.nft_price
            &&& (r.lamports)(p.treasury_account) == (l.lamports)(p.treasury_account) + fee
            &&& (r.lamports)(p.creater) == (l.lamports)(p.creater) + p.listing_account.data.nft_price
            &&& forall|k: Pubkey|
                k != p.buyer && k != p.treasury_account && k != p.creater ==> #[trigger] (r.lamports)(k) == (
                l.lamports)(k)
            &&& r.tokens == l.tokens
        },
{
    let a = p.deposite_amount_actions();
    lemma_fee_fits(p.market_place.data.fees, p.listing_account.data.nft_price);
    lemma_apply_pair(l, a[0], a[1]);
    assert(a == seq![a[0], a[1]]);
}

proof fn lemma_fee_fits(fees: u16, price: u16)
    ensures
        0 <= platform_fee_of(fees, price) <= u64::MAX,
{
    assert(0 <= fees as int * price as int <= 0xffff * 0xffff) by (nonlinear_arith)
        requires
            fees <= 0xffff,
            price <= 0xffff,
    ;
}

} // verus!
