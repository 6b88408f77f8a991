use solana_programs::amm::deposite::DepositePair;
use solana_programs::amm::initialize::{InitializePool, InitializePoolBumps};
use solana_programs::amm::swap::Swap;
use solana_programs::amm::update::Update;
use solana_programs::amm::withdraw::WithdrawTokens;
use solana_programs::amm::{CurveAmountsRequest, CurveSwapRequest, LPErrors, Pool, SwapResult, XYAmounts};
use solana_programs::ledger::{Account, Mint, Pubkey, Signer, Step, TokenAccount, TokenAction};

fn actions(steps: &[Step]) -> Vec<TokenAction> {
    steps.iter().map(|s| s.action).collect()
}

fn key(b: u8) -> Pubkey {
    Pubkey { bytes: [b; 32] }
}

fn mint(b: u8, decimals: u8, supply: u64) -> Mint {
    Mint { key: key(b), decimals, supply }
}

fn token(b: u8, amount: u64) -> TokenAccount {
    TokenAccount { key: key(b), amount }
}

fn pool(authority: Option<Pubkey>, locked: bool) -> Pool {
    Pool {
        seed: 7,
        authority,
        mint_x: key(2),
        mint_y: key(3),
        fee: 30,
        locked,
        pool_bump: 254,
        lp_mint_bump: 253,
    }
}

fn deposit_accounts(supply: u64, vault_x: u64, vault_y: u64) -> DepositePair {
    DepositePair {
        user: key(1),
        mint_x: mint(2, 6, 1000),
        mint_y: mint(3, 9, 1000),
        user_token_x: token(4, 500),
        user_token_y: token(5, 500),
        pool_account: Account { key: key(6), data: pool(None, false) },
        token_vault_x: token(7, vault_x),
        token_vault_y: token(8, vault_y),
        lp_mint: mint(9, 6, supply),
        user_lp_account: token(10, 0),
    }
}

fn swap_accounts(locked: bool) -> Swap {
    Swap {
        user: key(1),
        mint_x: mint(2, 6, 1000),
        mint_y: mint(3, 9, 1000),
        lp_mint: mint(9, 6, 100),
        pool_account: Account { key: key(6), data: pool(None, locked) },
        vault_x: token(7, 1000),
        vault_y: token(8, 2000),
        user_token_x: token(4, 50),
        user_token_y: token(5, 60),
    }
}

#[test]
fn pubkey_equals_compares_every_byte() {
    let a = key(1);
    let mut b = key(1);
    assert!(a.equals(&b));
    b.bytes[31] = 2;
    assert!(!a.equals(&b));
    b.bytes[31] = 1;
    b.bytes[0] = 0;
    assert!(!a.equals(&b));
}

#[test]
fn init_pool_writes_an_unlocked_pool() {
    let mut ctx = InitializePool {
        initializer: key(1),
        mint_x: mint(2, 6, 0),
        mint_y: mint(3, 9, 0),
        pool_account: Account { key: key(6), data: pool(None, true) },
    };
    let r = ctx.init_pool(42, 25, Some(key(11)), InitializePoolBumps { pool_account: 200, lp_mint: 201 });
    assert_eq!(r, Ok(()));
    assert_eq!(
        ctx.pool_account.data,
        Pool {
            seed: 42,
            authority: Some(key(11)),
            mint_x: key(2),
            mint_y: key(3),
            fee: 25,
            locked: false,
            pool_bump: 200,
            lp_mint_bump: 201,
        }
    );
}

#[test]
fn update_lock_by_admin_flips_and_twice_restores() {
    let mut ctx = Update { user: key(11), pool_account: Account { key: key(6), data: pool(Some(key(11)), false) } };
    assert_eq!(ctx.update_lock(), Ok(()));
    assert!(ctx.pool_account.data.locked);
    assert_eq!(ctx.update_lock(), Ok(()));
    assert_eq!(ctx.pool_account.data, pool(Some(key(11)), false));
}

#[test]
fn update_lock_by_other_user_is_invalid_admin() {
    let mut ctx = Update { user: key(12), pool_account: Account { key: key(6), data: pool(Some(key(11)), false) } };
    assert_eq!(ctx.update_lock(), Err(LPErrors::InvalidAdmin));
    assert_eq!(ctx.pool_account.data, pool(Some(key(11)), false));
}

#[test]
fn update_lock_without_admin_is_no_admin() {
    let mut ctx = Update { user: key(11), pool_account: Account { key: key(6), data: pool(None, true) } };
    assert_eq!(ctx.update_lock(), Err(LPErrors::NoAdmin));
    assert!(ctx.pool_account.data.locked);
}

#[test]
fn first_deposit_takes_the_maxima() {
    let ctx = deposit_accounts(0, 0, 0);
    assert!(ctx.is_first_deposit());
    assert_eq!(ctx.deposite_request(10, 100, 200), None);
    let plan = ctx.deposite(10, 100, 200, None).unwrap();
    assert_eq!(
        actions(&plan),
        vec![
            TokenAction::TransferChecked {
                from: key(4),
                to: key(7),
                mint: key(2),
                authority: key(1),
                amount: 100,
                decimals: 6
            },
            TokenAction::TransferChecked {
                from: key(5),
                to: key(8),
                mint: key(3),
                authority: key(1),
                amount: 200,
                decimals: 9
            },
            TokenAction::MintTo { mint: key(9), to: key(1), authority: key(6), amount: 10 },
        ]
    );
    let signers: Vec<Signer> = plan.iter().map(|s| s.signer).collect();
    assert_eq!(signers, vec![Signer::Transaction, Signer::Transaction, Signer::Pool { seed: 7, bump: 254 }]);
    assert!(plan.iter().all(|s| !s.ignore_failure));
}

#[test]
fn later_deposit_asks_the_curve_on_the_maxima() {
    let ctx = deposit_accounts(50, 1, 0);
    assert!(!ctx.is_first_deposit());
    assert_eq!(
        ctx.deposite_request(10, 100, 200),
        Some(CurveAmountsRequest { x: 100, y: 200, l: 50, a: 10, precision: 6 })
    );
}

#[test]
fn later_deposit_takes_the_curve_amounts() {
    let ctx = deposit_accounts(50, 1000, 2000);
    let plan = ctx.deposite(10, 100, 200, Some(XYAmounts { x: 100, y: 150 })).unwrap();
    assert_eq!(plan.len(), 3);
    assert_eq!(
        plan[1].action,
        TokenAction::TransferChecked { from: key(5), to: key(8), mint: key(3), authority: key(1), amount: 150, decimals: 9 }
    );
}

#[test]
fn deposit_above_maximum_is_slippage() {
    let ctx = deposit_accounts(50, 1000, 2000);
    assert_eq!(ctx.deposite(10, 100, 200, Some(XYAmounts { x: 101, y: 150 })), Err(LPErrors::SlippageExceed));
    assert_eq!(ctx.deposite(10, 100, 200, Some(XYAmounts { x: 100, y: 201 })), Err(LPErrors::SlippageExceed));
}

#[test]
fn swap_on_locked_pool_is_refused() {
    let ctx = swap_accounts(true);
    let curve = SwapResult { deposit: 10, withdraw: 19, fee: 0 };
    assert_eq!(ctx.swap(true, 10, 1, curve), Err(LPErrors::PoolLocked));
    assert_eq!(ctx.swap_request(true, 0, 1), Err(LPErrors::PoolLocked));
}

#[test]
fn swap_of_zero_is_zero_balance() {
    let ctx = swap_accounts(false);
    let curve = SwapResult { deposit: 0, withdraw: 0, fee: 0 };
    assert_eq!(ctx.swap(false, 0, 0, curve), Err(LPErrors::ZeroBalance));
    assert_eq!(ctx.swap_request(false, 0, 0), Err(LPErrors::ZeroBalance));
}

#[test]
fn swap_request_sets_up_the_curve() {
    let ctx = swap_accounts(false);
    assert_eq!(
        ctx.swap_request(true, 10, 15),
        Ok(CurveSwapRequest { x: 1000, y: 2000, l: 100, fee: 30, is_x: true, amount: 10, min: 15 })
    );
}

#[test]
fn swap_x_for_y_pays_in_x_and_out_y() {
    let ctx = swap_accounts(false);
    let plan = ctx.swap(true, 10, 15, SwapResult { deposit: 10, withdraw: 19, fee: 1 }).unwrap();
    assert_eq!(plan[0].signer, Signer::Transaction);
    assert_eq!(plan[1].signer, Signer::Pool { seed: 7, bump: 254 });
    assert_eq!(
        actions(&plan),
        vec![
            TokenAction::TransferChecked { from: key(4), to: key(7), mint: key(2), authority: key(1), amount: 10, decimals: 6 },
            TokenAction::TransferChecked { from: key(8), to: key(5), mint: key(2), authority: key(6), amount: 19, decimals: 6 },
        ]
    );
}

#[test]
fn swap_y_for_x_pays_in_y_and_out_x() {
    let ctx = swap_accounts(false);
    let plan = ctx.swap(false, 20, 5, SwapResult { deposit: 20, withdraw: 9, fee: 1 }).unwrap();
    assert_eq!(
        actions(&plan),
        vec![
            TokenAction::TransferChecked { from: key(5), to: key(8), mint: key(3), authority: key(1), amount: 20, decimals: 9 },
            TokenAction::TransferChecked { from: key(7), to: key(4), mint: key(3), authority: key(6), amount: 9, decimals: 6 },
        ]
    );
}

#[test]
fn withdraw_pays_out_and_burns() {
    let ctx = WithdrawTokens {
        user: key(1),
        mint_x: mint(2, 6, 1000),
        mint_y: mint(3, 9, 1000),
        pool_account: Account { key: key(6), data: pool(None, false) },
        user_token_x: token(4, 0),
        user_token_y: token(5, 0),
        token_vault_x: token(7, 1000),
        token_vault_y: token(8, 2000),
        lp_mint: mint(9, 6, 100),
        user_lp_account: token(10, 40),
    };
    assert_eq!(ctx.withdraw_request(3, 4, 40), CurveAmountsRequest { x: 3, y: 4, l: 100, a: 40, precision: 6 });
    let plan = ctx.withdraw(3, 4, 40, XYAmounts { x: 400, y: 800 });
    let signers: Vec<Signer> = plan.iter().map(|s| s.signer).collect();
    assert_eq!(
        signers,
        vec![Signer::Pool { seed: 7, bump: 254 }, Signer::Pool { seed: 7, bump: 254 }, Signer::Transaction]
    );
    assert_eq!(
        actions(&plan),
        vec![
            TokenAction::TransferChecked { from: key(7), to: key(5), mint: key(2), authority: key(6), amount: 400, decimals: 6 },
            TokenAction::TransferChecked { from: key(7), to: key(4), mint: key(3), authority: key(6), amount: 800, decimals: 6 },
            TokenAction::Burn { mint: key(9), from: key(10), authority: key(1), amount: 40 },
        ]
    );
}
