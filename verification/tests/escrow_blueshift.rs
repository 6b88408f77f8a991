use std::collections::HashMap;

use solana_programs::escrow_blueshift::{make, refund, take, Escrow, Make, MakeBumps, Refund, Take};
use solana_programs::ledger::{Account, Mint, Pubkey, Signer, Step, TokenAccount, TokenAction};

fn actions(steps: &[Step]) -> Vec<TokenAction> {
    steps.iter().map(|s| s.action).collect()
}

fn key(b: u8) -> Pubkey {
    Pubkey { bytes: [b; 32] }
}

fn mint_a() -> Mint {
    Mint { key: key(2), decimals: 6, supply: 0 }
}

fn mint_b() -> Mint {
    Mint { key: key(3), decimals: 9, supply: 0 }
}

fn offer() -> Escrow {
    Escrow { seed: 8, maker: key(1), mint_a: key(2), mint_b: key(3), receive: 70, bump: 251 }
}

#[test]
fn make_records_the_offer_and_deposits() {
    let mut ctx = Make {
        maker: key(1),
        escrow: Account { key: key(5), data: Escrow { seed: 0, maker: key(0), mint_a: key(0), mint_b: key(0), receive: 0, bump: 0 } },
        mint_a: mint_a(),
        mint_b: mint_b(),
        maker_ata_a: TokenAccount { key: key(4), amount: 100 },
        vault: TokenAccount { key: key(6), amount: 0 },
    };
    let plan = make(&mut ctx, 8, 70, 40, MakeBumps { escrow: 251 }).unwrap();
    assert_eq!(ctx.escrow.data, offer());
    assert_eq!(
        actions(&plan),
        vec![TokenAction::TransferChecked { from: key(4), to: key(6), mint: key(2), authority: key(1), amount: 40, decimals: 6 }]
    );
    assert_eq!(plan[0].signer, Signer::Transaction);
}

#[test]
fn zero_amounts_are_accepted() {
    let mut ctx = Make {
        maker: key(1),
        escrow: Account { key: key(5), data: offer() },
        mint_a: mint_a(),
        mint_b: mint_b(),
        maker_ata_a: TokenAccount { key: key(4), amount: 100 },
        vault: TokenAccount { key: key(6), amount: 0 },
    };
    assert!(make(&mut ctx, 8, 0, 0, MakeBumps { escrow: 251 }).is_ok());
    assert_eq!(ctx.escrow.data.receive, 0);
}

#[test]
fn take_pays_the_ask_and_empties_the_vault() {
    let ctx = Take {
        taker: key(7),
        maker: key(1),
        escrow: Account { key: key(5), data: offer() },
        mint_a: mint_a(),
        mint_b: mint_b(),
        vault: TokenAccount { key: key(6), amount: 40 },
        taker_ata_a: TokenAccount { key: key(8), amount: 0 },
        taker_ata_b: TokenAccount { key: key(9), amount: 100 },
        maker_ata_b: TokenAccount { key: key(10), amount: 0 },
    };
    let plan = take(&ctx).unwrap();
    let signers: Vec<Signer> = plan.iter().map(|s| s.signer).collect();
    let escrow = Signer::Escrow { owner: key(1), seed: 8, bump: 251 };
    assert_eq!(signers, vec![Signer::Transaction, escrow, escrow, Signer::Transaction]);
    assert_eq!(
        actions(&plan),
        vec![
            TokenAction::TransferChecked { from: key(9), to: key(10), mint: key(3), authority: key(7), amount: 70, decimals: 9 },
            TokenAction::TransferChecked { from: key(6), to: key(8), mint: key(2), authority: key(5), amount: 40, decimals: 6 },
            TokenAction::CloseAccount { account: key(6), destination: key(1), authority: key(5) },
            TokenAction::CloseProgramAccount { account: key(5), destination: key(1) },
        ]
    );
}

#[test]
fn refund_gives_back_what_make_deposited() {
    let ctx = Refund {
        maker: key(1),
        escrow: Account { key: key(5), data: offer() },
        mint_a: mint_a(),
        mint_b: mint_b(),
        vault: TokenAccount { key: key(6), amount: 40 },
        maker_ata_a: TokenAccount { key: key(4), amount: 60 },
    };
    let plan = refund(&ctx).unwrap();
    let escrow = Signer::Escrow { owner: key(1), seed: 8, bump: 251 };
    let signers: Vec<Signer> = plan.iter().map(|s| s.signer).collect();
    assert_eq!(signers, vec![escrow, escrow, Signer::Transaction]);
    assert_eq!(
        actions(&plan),
        vec![
            TokenAction::TransferChecked { from: key(6), to: key(4), mint: key(2), authority: key(5), amount: 40, decimals: 6 },
            TokenAction::CloseAccount { account: key(6), destination: key(1), authority: key(5) },
            TokenAction::CloseProgramAccount { account: key(5), destination: key(1) },
        ]
    );
}

#[test]
fn refund_undoes_make_on_balances() {
    let mut m = Make {
        maker: key(1),
        escrow: Account { key: key(5), data: offer() },
        mint_a: mint_a(),
        mint_b: mint_b(),
        maker_ata_a: TokenAccount { key: key(4), amount: 100 },
        vault: TokenAccount { key: key(6), amount: 0 },
    };
    let mut balances: HashMap<[u8; 32], i128> = HashMap::new();
    balances.insert(key(4).bytes, 100);
    let before = balances.clone();
    apply(&mut balances, &make(&mut m, 8, 70, 40, MakeBumps { escrow: 251 }).unwrap());
    assert_eq!(balances[&key(6).bytes], 40);
    let f = Refund {
        maker: key(1),
        escrow: m.escrow,
        mint_a: mint_a(),
        mint_b: mint_b(),
        vault: TokenAccount { key: key(6), amount: balances[&key(6).bytes] as u64 },
        maker_ata_a: TokenAccount { key: key(4), amount: balances[&key(4).bytes] as u64 },
    };
    apply(&mut balances, &refund(&f).unwrap());
    assert_eq!(balances[&key(4).bytes], before[&key(4).bytes]);
    assert_eq!(balances[&key(6).bytes], 0);
}

fn apply(balances: &mut HashMap<[u8; 32], i128>, plan: &[Step]) {
    for a in actions(plan).iter() {
        if let TokenAction::TransferChecked { from, to, amount, .. } = a {
            *balances.entry(from.bytes).or_insert(0) -= *amount as i128;
            *balances.entry(to.bytes).or_insert(0) += *amount as i128;
        }
    }
}
