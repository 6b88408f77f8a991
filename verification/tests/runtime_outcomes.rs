use std::collections::HashMap;

use solana_programs::amm::swap::Swap;
use solana_programs::amm::withdraw::WithdrawTokens;
use solana_programs::amm::{Pool, SwapResult};
use solana_programs::escrow_blueshift::{take, Escrow, Take};
use solana_programs::ledger::{Account, Mint, Pubkey, Step, TokenAccount, TokenAction};
use solana_programs::vault::withdraw::Withdraw;
use solana_programs::vault::VaultState;

fn key(b: u8) -> Pubkey {
    Pubkey { bytes: [b; 32] }
}

/// A small runtime: token accounts (mint, owner, balance), supplies,
/// lamports. A list of steps either all go through or changes nothing.
#[derive(Clone, PartialEq, Debug, Default)]
struct Runtime {
    accounts: HashMap<[u8; 32], ([u8; 32], [u8; 32], u64)>,
    supply: HashMap<[u8; 32], u64>,
    lamports: HashMap<[u8; 32], u64>,
}

impl Runtime {
    fn one(&mut self, a: &TokenAction) -> Result<(), ()> {
        match *a {
            TokenAction::TransferChecked { from, to, mint, authority, amount, .. } => {
                let (fm, fo, fb) = *self.accounts.get(&from.bytes).ok_or(())?;
                let (tm, _, tb) = *self.accounts.get(&to.bytes).ok_or(())?;
                if fm != mint.bytes || tm != mint.bytes || fo != authority.bytes || fb < amount {
                    return Err(());
                }
                tb.checked_add(amount).ok_or(())?;
                self.accounts.get_mut(&from.bytes).unwrap().2 -= amount;
                self.accounts.get_mut(&to.bytes).unwrap().2 += amount;
                Ok(())
            }
            TokenAction::Burn { mint, from, authority, amount } => {
                let (fm, fo, fb) = *self.accounts.get(&from.bytes).ok_or(())?;
                if fm != mint.bytes || fo != authority.bytes || fb < amount {
                    return Err(());
                }
                self.accounts.get_mut(&from.bytes).unwrap().2 -= amount;
                *self.supply.get_mut(&mint.bytes).ok_or(())? -= amount;
                Ok(())
            }
            TokenAction::SystemTransfer { from, to, lamports } => {
                let fb = *self.lamports.get(&from.bytes).unwrap_or(&0);
                if fb < lamports {
                    return Err(());
                }
                *self.lamports.entry(from.bytes).or_insert(0) -= lamports;
                *self.lamports.entry(to.bytes).or_insert(0) += lamports;
                Ok(())
            }
            TokenAction::CloseAccount { account, .. } => {
                let (_, _, b) = *self.accounts.get(&account.bytes).ok_or(())?;
                if b != 0 {
                    return Err(());
                }
                self.accounts.remove(&account.bytes);
                Ok(())
            }
            TokenAction::CloseProgramAccount { account, destination } => {
                let b = self.lamports.remove(&account.bytes).unwrap_or(0);
                *self.lamports.entry(destination.bytes).or_insert(0) += b;
                Ok(())
            }
            _ => Err(()),
        }
    }

    fn run(&mut self, steps: &[Step]) -> Result<(), ()> {
        let before = self.clone();
        for s in steps {
            if self.one(&s.action).is_err() {
                *self = before;
                return Err(());
            }
        }
        Ok(())
    }
}

fn pool() -> Pool {
    Pool { seed: 7, authority: None, mint_x: key(2), mint_y: key(3), fee: 30, locked: false, pool_bump: 1, lp_mint_bump: 2 }
}

#[test]
fn swap_is_refused_when_the_vaults_hold_their_own_mints() {
    let s = Swap {
        user: key(1),
        mint_x: Mint { key: key(2), decimals: 6, supply: 3000 },
        mint_y: Mint { key: key(3), decimals: 6, supply: 3000 },
        lp_mint: Mint { key: key(9), decimals: 6, supply: 100 },
        pool_account: Account { key: key(6), data: pool() },
        vault_x: TokenAccount { key: key(7), amount: 1000 },
        vault_y: TokenAccount { key: key(8), amount: 1000 },
        user_token_x: TokenAccount { key: key(4), amount: 50 },
        user_token_y: TokenAccount { key: key(5), amount: 50 },
    };
    let mut rt = Runtime::default();
    rt.accounts.insert(key(7).bytes, (key(2).bytes, key(6).bytes, 1000));
    rt.accounts.insert(key(8).bytes, (key(3).bytes, key(6).bytes, 1000));
    rt.accounts.insert(key(4).bytes, (key(2).bytes, key(1).bytes, 50));
    rt.accounts.insert(key(5).bytes, (key(3).bytes, key(1).bytes, 50));
    let before = rt.clone();
    for is_x in [true, false] {
        let plan = s.swap(is_x, 10, 1, SwapResult { deposit: 10, withdraw: 9, fee: 0 }).unwrap();
        assert_eq!(rt.run(&plan), Err(()));
        assert_eq!(rt, before);
    }
}

#[test]
fn lp_burn_lowers_the_supply() {
    let w = WithdrawTokens {
        user: key(1),
        mint_x: Mint { key: key(2), decimals: 6, supply: 0 },
        mint_y: Mint { key: key(3), decimals: 6, supply: 0 },
        pool_account: Account { key: key(6), data: pool() },
        user_token_x: TokenAccount { key: key(4), amount: 0 },
        user_token_y: TokenAccount { key: key(5), amount: 0 },
        token_vault_x: TokenAccount { key: key(7), amount: 0 },
        token_vault_y: TokenAccount { key: key(8), amount: 0 },
        lp_mint: Mint { key: key(9), decimals: 6, supply: 100 },
        user_lp_account: TokenAccount { key: key(10), amount: 40 },
    };
    let mut rt = Runtime::default();
    rt.accounts.insert(key(10).bytes, (key(9).bytes, key(1).bytes, 40));
    rt.supply.insert(key(9).bytes, 100);
    assert_eq!(rt.run(&[w.burn_lp_tokens(41)]), Err(()));
    assert_eq!(rt.run(&[w.burn_lp_tokens(15)]), Ok(()));
    assert_eq!(rt.accounts[&key(10).bytes].2, 25);
    assert_eq!(rt.supply[&key(9).bytes], 85);
}

#[test]
fn take_moves_nothing_unless_the_maker_is_paid() {
    let t = Take {
        taker: key(7),
        maker: key(1),
        escrow: Account { key: key(5), data: Escrow { seed: 8, maker: key(1), mint_a: key(2), mint_b: key(3), receive: 10, bump: 1 } },
        mint_a: Mint { key: key(2), decimals: 6, supply: 0 },
        mint_b: Mint { key: key(3), decimals: 6, supply: 0 },
        vault: TokenAccount { key: key(6), amount: 40 },
        taker_ata_a: TokenAccount { key: key(8), amount: 0 },
        taker_ata_b: TokenAccount { key: key(9), amount: 0 },
        maker_ata_b: TokenAccount { key: key(10), amount: 0 },
    };
    let mut rt = Runtime::default();
    rt.accounts.insert(key(6).bytes, (key(2).bytes, key(5).bytes, 40));
    rt.accounts.insert(key(8).bytes, (key(2).bytes, key(7).bytes, 0));
    rt.accounts.insert(key(9).bytes, (key(3).bytes, key(7).bytes, 0));
    rt.accounts.insert(key(10).bytes, (key(3).bytes, key(1).bytes, 0));
    let before = rt.clone();
    let plan = take(&t).unwrap();
    assert_eq!(rt.run(&plan), Err(()));
    assert_eq!(rt, before);
    rt.accounts.get_mut(&key(9).bytes).unwrap().2 = 10;
    assert_eq!(rt.run(&plan), Ok(()));
    assert_eq!(rt.accounts[&key(10).bytes].2, 10);
    assert_eq!(rt.accounts[&key(8).bytes].2, 40);
    assert!(!rt.accounts.contains_key(&key(6).bytes));
}

#[test]
fn take_closes_the_escrow_to_the_maker() {
    let t = Take {
        taker: key(7),
        maker: key(1),
        escrow: Account { key: key(5), data: Escrow { seed: 8, maker: key(1), mint_a: key(2), mint_b: key(3), receive: 10, bump: 1 } },
        mint_a: Mint { key: key(2), decimals: 6, supply: 0 },
        mint_b: Mint { key: key(3), decimals: 6, supply: 0 },
        vault: TokenAccount { key: key(6), amount: 40 },
        taker_ata_a: TokenAccount { key: key(8), amount: 0 },
        taker_ata_b: TokenAccount { key: key(9), amount: 10 },
        maker_ata_b: TokenAccount { key: key(10), amount: 0 },
    };
    let mut rt = Runtime::default();
    rt.accounts.insert(key(6).bytes, (key(2).bytes, key(5).bytes, 40));
    rt.accounts.insert(key(8).bytes, (key(2).bytes, key(7).bytes, 0));
    rt.accounts.insert(key(9).bytes, (key(3).bytes, key(7).bytes, 10));
    rt.accounts.insert(key(10).bytes, (key(3).bytes, key(1).bytes, 0));
    rt.lamports.insert(key(5).bytes, 1_500_000);
    rt.lamports.insert(key(1).bytes, 7);
    assert_eq!(rt.run(&take(&t).unwrap()), Ok(()));
    assert_eq!(rt.lamports[&key(1).bytes], 1_500_007);
    assert!(!rt.lamports.contains_key(&key(5).bytes));
}

#[test]
fn vault_withdrawal_beyond_its_lamports_is_refused() {
    let w = Withdraw { signer: key(1), vault_state: Account { key: key(2), data: VaultState { vault_bump: 3, state_bump: 4 } }, vault: key(3) };
    let mut rt = Runtime::default();
    rt.lamports.insert(key(3).bytes, 500);
    assert_eq!(rt.run(&[w.withdraw(501)]), Err(()));
    assert_eq!(rt.lamports[&key(3).bytes], 500);
    assert_eq!(rt.run(&[w.withdraw(500)]), Ok(()));
    assert_eq!(rt.lamports[&key(1).bytes], 500);
}
