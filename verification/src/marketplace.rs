//! An NFT marketplace: creators list NFTs at a price, buyers pay the price
//! to the creator plus the marketplace's fee to its treasury.
use vstd::prelude::*;

use crate::ledger::Pubkey;

pub mod delist;
pub mod initmarket;
pub mod list;
pub mod purchase;

verus! {

/// Errors of the marketplace program.
#[derive(Clone, Copy, Debug, PartialEq, Eq, Structural)]
pub enum MarketPlaceErrors {
    TooLongName,
}

/// The marketplace's state account.
#[derive(Clone, Debug, PartialEq, Eq)]
pub struct Marketplace {
    /// Who created the marketplace.
    pub admin: Pubkey,
    /// Fee in basis points of the price.
    pub fees: u16,
    pub marketplace_bump: u8,
    pub treasury_bump: u8,
    pub reward_bum: u8,
    pub name: String,
}

/// The state account of one listed NFT.
#[derive(Clone, Copy, Debug, PartialEq, Eq)]
pub struct ListingAccount {
    pub creater: Pubkey,
    pub nft_mint: Pubkey,
    pub nft_price: u16,
    pub listing_bump: u8,
}

} // verus!
