use solana_programs::ledger::{Account, Mint, Pubkey, Signer, TokenAccount, TokenAction};
use solana_programs::marketplace::delist::{delist, Delist};
use solana_programs::marketplace::initmarket::{InitMarketplace, InitMarketplaceBumps};
use solana_programs::marketplace::list::{listing as list_nft, List, ListBumps};
use solana_programs::marketplace::purchase::{platform_fee, PurchaseNFT};
use solana_programs::marketplace::{ListingAccount, MarketPlaceErrors, Marketplace};

fn key(b: u8) -> Pubkey {
    Pubkey { bytes: [b; 32] }
}

fn market(fees: u16) -> Marketplace {
    Marketplace {
        admin: key(1),
        fees,
        marketplace_bump: 1,
        treasury_bump: 2,
        reward_bum: 3,
        name: String::from("madlads"),
    }
}

fn listing(price: u16) -> ListingAccount {
    ListingAccount { creater: key(4), nft_mint: key(5), nft_price: price, listing_bump: 9 }
}

fn init_ctx() -> InitMarketplace {
    InitMarketplace {
        admin: key(1),
        market_place_account: Account { key: key(2), data: market(0) },
        treasury_account: key(3),
        reward_account: key(6),
    }
}

fn bumps() -> InitMarketplaceBumps {
    InitMarketplaceBumps { market_place_account: 10, treasury_account: 11, reward_account: 12 }
}

#[test]
fn marketplace_name_bounds() {
    let mut ctx = init_ctx();
    assert_eq!(ctx.initialize_marketplace(String::from(""), 100, bumps()), Err(MarketPlaceErrors::TooLongName));
    assert_eq!(ctx.initialize_marketplace(String::from("a"), 100, bumps()), Err(MarketPlaceErrors::TooLongName));
    assert_eq!(ctx.initialize_marketplace("x".repeat(33), 100, bumps()), Err(MarketPlaceErrors::TooLongName));
    assert_eq!(ctx.market_place_account.data, market(0));
    assert_eq!(ctx.initialize_marketplace("x".repeat(32), 100, bumps()), Ok(()));
    assert_eq!(ctx.initialize_marketplace(String::from("ab"), 100, bumps()), Ok(()));
}

#[test]
fn marketplace_name_counts_bytes() {
    let mut ctx = init_ctx();
    // One character, two bytes.
    assert_eq!(ctx.initialize_marketplace(String::from("é"), 100, bumps()), Ok(()));
    // Eleven characters, thirty-three bytes.
    assert_eq!(ctx.initialize_marketplace("€".repeat(11), 100, bumps()), Err(MarketPlaceErrors::TooLongName));
}

#[test]
fn marketplace_is_recorded() {
    let mut ctx = init_ctx();
    assert_eq!(ctx.initialize_marketplace(String::from("madlads"), 250, bumps()), Ok(()));
    assert_eq!(
        ctx.market_place_account.data,
        Marketplace {
            admin: key(1),
            fees: 250,
            marketplace_bump: 10,
            treasury_bump: 11,
            reward_bum: 12,
            name: String::from("madlads"),
        }
    );
}

#[test]
fn platform_fee_values() {
    assert_eq!(platform_fee(250, 1000), 25);
    assert_eq!(platform_fee(250, 39), 0);
    assert_eq!(platform_fee(10000, 65535), 65535);
    assert_eq!(platform_fee(65535, 65535), 429483);
    assert_eq!(platform_fee(0, 65535), 0);
}

fn list_ctx() -> List {
    List {
        creater: key(4),
        creater_mint: Mint { key: key(5), decimals: 0, supply: 1 },
        marketplace: Account { key: key(2), data: market(250) },
        list_account: Account { key: key(7), data: listing(0) },
        creater_nft_account: TokenAccount { key: key(8), amount: 1 },
        nft_vault_account: TokenAccount { key: key(9), amount: 0 },
    }
}

#[test]
fn listing_records_price_and_moves_the_nft() {
    let mut ctx = list_ctx();
    ctx.initialize_list(1200, ListBumps { list_account: 9 });
    assert_eq!(ctx.list_account.data, listing(1200));
    assert_eq!(
        ctx.deposite_nft().action,
        TokenAction::TransferChecked { from: key(8), to: key(9), mint: key(5), authority: key(4), amount: 1, decimals: 0 }
    );
}

#[test]
fn delisting_returns_the_nft() {
    let ctx = Delist {
        creater: key(4),
        market_place: Account { key: key(2), data: market(250) },
        creater_mint: Mint { key: key(5), decimals: 0, supply: 1 },
        creater_nft: TokenAccount { key: key(8), amount: 0 },
        nft_vault: TokenAccount { key: key(9), amount: 1 },
        list_account: Account { key: key(7), data: listing(1200) },
    };
    let step = ctx.delist_nft();
    assert_eq!(step.signer, Signer::Listing { marketplace: key(2), mint: key(5), bump: Some(9) });
    let back = step.action;
    assert_eq!(
        back,
        TokenAction::TransferChecked { from: key(9), to: key(8), mint: key(5), authority: key(7), amount: 1, decimals: 0 }
    );
    // The listing's deposit and the delisting's return cancel out.
    if let (
        TokenAction::TransferChecked { from: f1, to: t1, amount: a1, .. },
        TokenAction::TransferChecked { from: f2, to: t2, amount: a2, .. },
    ) = (list_ctx().deposite_nft().action, back)
    {
        assert_eq!((f1, t1, a1), (t2, f2, a2));
    } else {
        panic!("both are transfers");
    }
    assert_eq!(ctx.close_vault().action, TokenAction::CloseAccount { account: key(9), destination: key(4), authority: key(7) });
    assert_eq!(ctx.close_vault().signer, Signer::Listing { marketplace: key(2), mint: key(5), bump: None });
}

#[test]
fn purchase_pays_fee_and_price() {
    let ctx = PurchaseNFT {
        creater: key(4),
        buyer: key(10),
        market_place: Account { key: key(2), data: market(250) },
        nft_mint: Mint { key: key(5), decimals: 0, supply: 1 },
        listing_account: Account { key: key(7), data: listing(1200) },
        nft_vault: TokenAccount { key: key(9), amount: 1 },
        buyer_nft_account: TokenAccount { key: key(11), amount: 0 },
        treasury_account: key(3),
        reward_account: Mint { key: key(6), decimals: 6, supply: 0 },
    };
    assert_eq!(
        ctx.deposite_amount().iter().map(|s| s.action).collect::<Vec<_>>(),
        vec![
            TokenAction::SystemTransfer { from: key(10), to: key(3), lamports: 30 },
            TokenAction::SystemTransfer { from: key(10), to: key(4), lamports: 1200 },
        ]
    );
    assert_eq!(
        ctx.transfer_nft().action,
        TokenAction::TransferChecked { from: key(9), to: key(10), mint: key(5), authority: key(7), amount: 1, decimals: 0 }
    );
    assert_eq!(ctx.transfer_nft().signer, Signer::Listing { marketplace: key(2), mint: key(5), bump: Some(9) });
    assert_eq!(ctx.close_accounts().signer, Signer::Listing { marketplace: key(2), mint: key(5), bump: None });
    assert_eq!(ctx.close_accounts().action, TokenAction::CloseAccount { account: key(9), destination: key(4), authority: key(7) });
}

#[test]
fn listing_instruction_records_then_deposits() {
    let mut ctx = list_ctx();
    let plan = list_nft(&mut ctx, 1200, ListBumps { list_account: 9 });
    assert_eq!(ctx.list_account.data, listing(1200));
    assert_eq!(plan.len(), 1);
    assert_eq!(plan[0], list_ctx().deposite_nft());
}

#[test]
fn delist_instruction_returns_closes_and_closes_the_listing() {
    let ctx = Delist {
        creater: key(4),
        market_place: Account { key: key(2), data: market(250) },
        creater_mint: Mint { key: key(5), decimals: 0, supply: 1 },
        creater_nft: TokenAccount { key: key(8), amount: 0 },
        nft_vault: TokenAccount { key: key(9), amount: 1 },
        list_account: Account { key: key(7), data: listing(1200) },
    };
    let plan = delist(&ctx);
    assert_eq!(plan.len(), 3);
    assert_eq!(plan[0], ctx.delist_nft());
    assert_eq!(plan[1], ctx.close_vault());
    assert_eq!(plan[2].action, TokenAction::CloseProgramAccount { account: key(7), destination: key(4) });
    assert_eq!(plan[2].signer, Signer::Transaction);
}
