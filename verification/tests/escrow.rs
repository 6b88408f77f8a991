use solana_programs::escrow::make::{deposit_to_vault, intilize_and_deposit, Invocation, Make, MakeBumps};
use solana_programs::escrow::refund::{refund, Refund};
use solana_programs::escrow::take::{take, Take};
use solana_programs::escrow::Escrow;
use solana_programs::ledger::{Account, Mint, Pubkey, Signer, Step, TokenAccount, TokenAction};

fn actions(steps: &[Step]) -> Vec<TokenAction> {
    steps.iter().map(|s| s.action).collect()
}

fn key(b: u8) -> Pubkey {
    Pubkey { bytes: [b; 32] }
}

fn escrow_state() -> Escrow {
    Escrow { ids: 5, mint_a: key(2), mint_b: key(3), bump: 250, demand: 70, signer: key(1) }
}

#[test]
fn opening_records_the_escrow_and_deposits() {
    let mut ctx = Make {
        signer: key(1),
        mint_a: Mint { key: key(2), decimals: 6, supply: 0 },
        mint_b: Mint { key: key(3), decimals: 9, supply: 0 },
        market_asso_a: TokenAccount { key: key(4), amount: 100 },
        escrow: Account { key: key(5), data: Escrow { ids: 0, mint_a: key(0), mint_b: key(0), bump: 0, demand: 0, signer: key(0) } },
        vault: TokenAccount { key: key(6), amount: 0 },
        token_program: key(20),
        system_program: key(21),
    };
    let inv = intilize_and_deposit(&mut ctx, 5, 40, 70, MakeBumps { escrow: 250 });
    assert_eq!(ctx.escrow.data, escrow_state());
    let expected = Invocation {
        program: key(21),
        step: Step {
            action: TokenAction::TransferChecked { from: key(4), to: key(6), mint: key(2), authority: key(5), amount: 40, decimals: 6 },
            signer: Signer::Transaction,
            ignore_failure: true,
        },
    };
    assert_eq!(inv, expected);
    assert_eq!(deposit_to_vault(&ctx, 40), expected);
}

#[test]
fn taking_pays_the_demand_and_drains_the_vault() {
    let ctx = Take {
        signer: key(1),
        maker: key(9),
        mint_a: Mint { key: key(2), decimals: 6, supply: 0 },
        mint_b: Mint { key: key(3), decimals: 9, supply: 0 },
        self_asso_a: TokenAccount { key: key(10), amount: 0 },
        self_ass_b: TokenAccount { key: key(11), amount: 0 },
        market_asso_b: TokenAccount { key: key(12), amount: 500 },
        escrow: Account { key: key(5), data: escrow_state() },
        vault: TokenAccount { key: key(6), amount: 40 },
    };
    let plan = take(&ctx);
    assert_eq!(plan[1].signer, Signer::Escrow { owner: key(1), seed: 5, bump: 250 });
    assert_eq!(plan[2].signer, Signer::Transaction);
    assert!(plan.iter().all(|s| !s.ignore_failure));
    assert_eq!(
        actions(&plan),
        vec![
            TokenAction::TransferChecked { from: key(12), to: key(9), mint: key(3), authority: key(1), amount: 70, decimals: 9 },
            TokenAction::TransferChecked { from: key(6), to: key(12), mint: key(2), authority: key(5), amount: 40, decimals: 6 },
            TokenAction::CloseAccount { account: key(6), destination: key(1), authority: key(5) },
            TokenAction::CloseProgramAccount { account: key(5), destination: key(1) },
        ]
    );
}

#[test]
fn refund_returns_the_vault() {
    let ctx = Refund {
        signer: key(1),
        mint_a: Mint { key: key(2), decimals: 6, supply: 0 },
        market_asso_a: TokenAccount { key: key(4), amount: 60 },
        escrow: Account { key: key(5), data: escrow_state() },
        vault: TokenAccount { key: key(6), amount: 40 },
    };
    let plan = refund(&ctx);
    assert_eq!(plan[0].signer, Signer::Escrow { owner: key(1), seed: 5, bump: 250 });
    assert!(plan[0].ignore_failure);
    assert_eq!(plan[1].signer, Signer::Transaction);
    assert!(!plan[1].ignore_failure);
    assert_eq!(
        actions(&plan),
        vec![
            TokenAction::TransferChecked { from: key(6), to: key(4), mint: key(2), authority: key(5), amount: 40, decimals: 6 },
            TokenAction::CloseAccount { account: key(6), destination: key(1), authority: key(5) },
            TokenAction::CloseProgramAccount { account: key(5), destination: key(1) },
        ]
    );
}
