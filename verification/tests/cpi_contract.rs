use solana_programs::cpi_contract::{sol_trasfer, AccountMeta, SolTrasfer};
use solana_programs::ledger::Pubkey;

fn key(b: u8) -> Pubkey {
    Pubkey { bytes: [b; 32] }
}

#[test]
fn transfer_instruction_layout() {
    let ctx = SolTrasfer { sender: key(1), recipient: key(2), system_program: key(0) };
    let ix = sol_trasfer(&ctx, 0x0102_0304_0506_0708);
    assert_eq!(ix.program_id, key(0));
    assert_eq!(
        ix.accounts,
        vec![
            AccountMeta { pubkey: key(1), is_signer: true, is_writable: true },
            AccountMeta { pubkey: key(2), is_signer: false, is_writable: true },
        ]
    );
    assert_eq!(ix.data, vec![2, 0, 0, 0, 8, 7, 6, 5, 4, 3, 2, 1]);
}

#[test]
fn transfer_data_decodes_to_the_amount() {
    let ctx = SolTrasfer { sender: key(1), recipient: key(2), system_program: key(0) };
    for amount in [0u64, 1, 255, 256, 1_000_000_000, u64::MAX] {
        let ix = sol_trasfer(&ctx, amount);
        assert_eq!(ix.data.len(), 12);
        assert_eq!(u32::from_le_bytes([ix.data[0], ix.data[1], ix.data[2], ix.data[3]]), 2);
        let mut tail = [0u8; 8];
        tail.copy_from_slice(&ix.data[4..12]);
        assert_eq!(u64::from_le_bytes(tail), amount);
        assert_eq!(&ix.data[4..12], &amount.to_le_bytes());
    }
}

#[test]
fn five_lamport_transfer_bytes() {
    let ctx = SolTrasfer { sender: key(1), recipient: key(2), system_program: key(0) };
    let ix = sol_trasfer(&ctx, 5);
    assert_eq!(ix.data, vec![2, 0, 0, 0, 5, 0, 0, 0, 0, 0, 0, 0]);
    assert!(ix.accounts[0].is_signer && !ix.accounts[1].is_signer);
}
