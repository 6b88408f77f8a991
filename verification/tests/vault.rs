use solana_programs::ledger::{Account, Pubkey, Signer, TokenAction};
use solana_programs::vault::deposit::Deposit;
use solana_programs::vault::init::{Init, InitBumps};
use solana_programs::vault::withdraw::Withdraw;
use solana_programs::vault::{deposit, withdraw, VaultState};

fn key(b: u8) -> Pubkey {
    Pubkey { bytes: [b; 32] }
}

#[test]
fn init_records_bumps() {
    let mut ctx = Init { signer: key(1), vault_state: Account { key: key(2), data: VaultState { vault_bump: 0, state_bump: 0 } }, vault: key(3) };
    ctx.init(InitBumps { vault_state: 254, vault: 253 });
    assert_eq!(ctx.vault_state.data, VaultState { vault_bump: 253, state_bump: 254 });
}

#[test]
fn withdraw_undoes_deposit() {
    let state = Account { key: key(2), data: VaultState { vault_bump: 253, state_bump: 254 } };
    let d = Deposit { signer: key(1), vault_state: state, vault: key(3) };
    let w = Withdraw { signer: key(1), vault_state: state, vault: key(3) };
    assert_eq!(d.deposit(500).signer, Signer::Transaction);
    assert!(!d.deposit(500).ignore_failure);
    assert!(!w.withdraw(500).ignore_failure);
    assert_eq!(w.withdraw(500).signer, Signer::Vault { state: key(2), bump: 253 });
    assert_eq!(d.deposit(500).action, TokenAction::SystemTransfer { from: key(1), to: key(3), lamports: 500 });
    assert_eq!(w.withdraw(500).action, TokenAction::SystemTransfer { from: key(3), to: key(1), lamports: 500 });
    let mut user: i128 = 1000;
    let mut vault: i128 = 0;
    for a in [d.deposit(500).action, w.withdraw(500).action] {
        if let TokenAction::SystemTransfer { from, lamports, .. } = a {
            if from == key(1) {
                user -= lamports as i128;
                vault += lamports as i128;
            } else {
                vault -= lamports as i128;
                user += lamports as i128;
            }
        }
    }
    assert_eq!((user, vault), (1000, 0));
}

#[test]
fn instructions_discard_the_transfer_error() {
    let state = Account { key: key(2), data: VaultState { vault_bump: 253, state_bump: 254 } };
    let d = Deposit { signer: key(1), vault_state: state, vault: key(3) };
    let w = Withdraw { signer: key(1), vault_state: state, vault: key(3) };
    let ds = deposit(&d, 500);
    let ws = withdraw(&w, 700);
    assert!(ds.ignore_failure);
    assert!(ws.ignore_failure);
    assert_eq!(ds.action, d.deposit(500).action);
    assert_eq!(ws.action, TokenAction::SystemTransfer { from: key(3), to: key(1), lamports: 700 });
    assert_eq!(ws.signer, Signer::Vault { state: key(2), bump: 253 });
}

#[test]
fn init_instruction_records_bumps() {
    let mut ctx = Init { signer: key(1), vault_state: Account { key: key(2), data: VaultState { vault_bump: 0, state_bump: 0 } }, vault: key(3) };
    solana_programs::vault::init(&mut ctx, InitBumps { vault_state: 7, vault: 9 });
    assert_eq!(ctx.vault_state.data, VaultState { vault_bump: 9, state_bump: 7 });
    assert_eq!(ctx.vault, key(3));
}
