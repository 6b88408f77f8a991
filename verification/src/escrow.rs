//! A second token escrow, keyed by an id: the signer locks `deposit` A
//! tokens in a vault and demands `demand` B tokens for them.
use vstd::prelude::*;

use crate::ledger::{Account, Mint, Pubkey, Signer, Step, TokenAccount, TokenAction};

pub mod make;
pub mod refund;
pub mod take;

verus! {

/// The escrow's state account.
#[derive(Clone, Copy, Debug, PartialEq, Eq)]
pub struct Escrow {
    pub ids: u64,
    pub mint_a: Pubkey,
    pub mint_b: Pubkey,
    pub bump: u8,
    /// How many B tokens are demanded.
    pub demand: u64,
    /// Who opened the escrow.
    pub signer: Pubkey,
}

/// The vault's whole content sent to `to` under mint A (signed by the
/// escrow), then the vault closed to the signer.
pub open spec fn drain_vault_actions(escrow: Pubkey, vault: TokenAccount, to: Pubkey, mint_a: Mint, signer: Pubkey) -> Seq<
    TokenAction,
> {
    seq![
        TokenAction::TransferChecked {
            from: vault.key,
            to,
            mint: mint_a.key,
            authority: escrow,
            amount: vault.amount,
            decimals: mint_a.decimals,
        },
        TokenAction::CloseAccount { account: vault.key, destination: signer, authority: escrow },
    ]
}

/// The steps that drain the vault: the transfer signed by the escrow (its
/// seeds are the signer, the id and the bump), the closing with no signature
/// of the program's; whether the program goes on after a refused transfer is
/// `ignore_transfer`.
pub open spec fn drain_vault_steps(
    escrow: Account<Escrow>,
    vault: TokenAccount,
    to: Pubkey,
    mint_a: Mint,
    signer: Pubkey,
    ignore_transfer: bool,
) -> Seq<Step> {
    let actions = drain_vault_actions(escrow.key, vault, to, mint_a, signer);
    seq![
        Step {
            action: actions[0],
            signer: Signer::Escrow { owner: signer, seed: escrow.data.ids, bump: escrow.data.bump },
            ignore_failure: ignore_transfer,
        },
        Step { action: actions[1], signer: Signer::Transaction, ignore_failure: false },
    ]
}

/// The escrow's state account closed to `signer`, as its `close = signer`
/// constraint does when the instruction ends.
pub open spec fn close_escrow_step(escrow: Pubkey, signer: Pubkey) -> Step {
    Step {
        action: TokenAction::CloseProgramAccount { account: escrow, destination: signer },
        signer: Signer::Transaction,
        ignore_failure: false,
    }
}

pub(crate) fn close_escrow(escrow: Pubkey, signer: Pubkey) -> (r: Step)
    ensures
        r == close_escrow_step(escrow, signer),
{
    Step {
        action: TokenAction::CloseProgramAccount { account: escrow, destination: signer },
        signer: Signer::Transaction,
        ignore_failure: false,
    }
}

pub(crate) fn drain_vault(
    escrow: Account<Escrow>,
    vault: TokenAccount,
    to: Pubkey,
    mint_a: Mint,
    signer: Pubkey,
    ignore_transfer: bool,
) -> (r: Vec<Step>)
    ensures
        r@ == drain_vault_steps(escrow, vault, to, mint_a, signer, ignore_transfer),
{
    let mut plan: Vec<Step> = Vec::new();
    plan.push(
        Step {
            action: TokenAction::TransferChecked {
                from: vault.key,
                to,
                mint: mint_a.key,
                authority: escrow.key,
                amount: vault.amount,
                decimals: mint_a.decimals,
            },
            signer: Signer::Escrow { owner: signer, seed: escrow.data.ids, bump: escrow.data.bump },
            ignore_failure: ignore_transfer,
        },
    );
    plan.push(
        Step {
            action: TokenAction::CloseAccount { account: vault.key, destination: signer, authority: escrow.key },
            signer: Signer::Transaction,
            ignore_failure: false,
        },
    );
    assert(plan@ =~= drain_vault_steps(escrow, vault, to, mint_a, signer, ignore_transfer));
    plan
}

} // verus!
