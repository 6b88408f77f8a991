//! Opening an escrow.
use vstd::prelude::*;

use crate::escrow::Escrow;
use crate::ledger::{
    apply_steps, lemma_steps_single, program_answer, Account, Ledger, Mint, Pubkey, Signer, Step, TokenAccount, TokenAction,
};

verus! {

/// Bump found for the escrow account that `intilize_and_deposit` creates.
#[derive(Clone, Copy, Debug)]
pub struct MakeBumps {
    pub escrow: u8,
}

/// Accounts of the opening of an escrow.
#[derive(Clone, Copy, Debug)]
pub struct Make {
    pub signer: Pubkey,
    pub mint_a: Mint,
    pub mint_b: Mint,
    pub market_asso_a: TokenAccount,
    pub escrow: Account<Escrow>,
    pub vault: TokenAccount,
    pub token_program: Pubkey,
    pub system_program: Pubkey,
}

/// A step and the program that its instruction is sent to.
#[derive(Clone, Copy, Debug, PartialEq, Eq)]
pub struct Invocation {
    pub program: Pubkey,
    pub step: Step,
}

/// The escrow state that opening writes.
pub open spec fn opened_escrow(ctx: Make, seeds: u64, demand: u64, bump: u8) -> Escrow {
    Escrow { ids: seeds, mint_a: ctx.mint_a.key, mint_b: ctx.mint_b.key, bump, demand, signer: ctx.signer }
}

/// The deposit that opening sends: `deposit` A tokens from the signer's
/// account to the vault, with the escrow as authority, addressed to the
/// system program, with no signature of the program's; the program goes on
/// whether or not it succeeds.
pub open spec fn deposit_invocation(ctx: Make, deposit: u64) -> Invocation {
    Invocation {
        program: ctx.system_program,
        step: Step {
            action: TokenAction::TransferChecked {
                from: ctx.market_asso_a.key,
                to: ctx.vault.key,
                mint: ctx.mint_a.key,
                authority: ctx.escrow.key,
                amount: deposit,
                decimals: ctx.mint_a.decimals,
            },
            signer: Signer::Transaction,
            ignore_failure: true,
        },
    }
}

/// Opens the escrow (id `seeds`, demanding `demand`) and returns the deposit
/// of `deposit` A tokens into the vault. The program ignores whether that
/// deposit succeeds.
pub fn intilize_and_deposit(context: &mut Make, seeds: u64, deposit: u64, demand: u64, bumps: MakeBumps) -> (r:
    Invocation)
    ensures
        final(context).escrow.data == opened_escrow(*old(context), seeds, demand, bumps.escrow),
        final(context).escrow.key == old(context).escrow.key,
        final(context).signer == old(context).signer,
        final(context).mint_a == old(context).mint_a,
        final(context).mint_b == old(context).mint_b,
        final(context).market_asso_a == old(context).market_asso_a,
        final(context).vault == old(context).vault,
        final(context).token_program == old(context).token_program,
        final(context).system_program == old(context).system_program,
        r == deposit_invocation(*old(context), deposit),
{
    context.escrow.data = Escrow {
        ids: seeds,
        mint_a: context.mint_a.key,
        mint_b: context.mint_b.key,
        bump: bumps.escrow,
        demand,
        signer: context.signer,
    };
    deposit_to_vault(context, deposit)
}

/// The deposit of `deposit` A tokens into the vault.
pub fn deposit_to_vault(context: &Make, deposit: u64) -> (r: Invocation)
    ensures
        r == deposit_invocation(*context, deposit),
{
    Invocation {
        program: context.system_program,
        step: Step {
            action: TokenAction::TransferChecked {
                from: context.market_asso_a.key,
                to: context.vault.key,
                mint: context.mint_a.key,
                authority: context.escrow.key,
                amount: deposit,
                decimals: context.mint_a.decimals,
            },
            signer: Signer::Transaction,
            ignore_failure: true,
        },
    }
}

/// Opening answers success whatever comes of the deposit, but the deposit
/// names the escrow as the authority of the signer's account and carries no
/// seeds of the program's: unless the escrow's address signed the
/// transaction itself (a program's address cannot), the runtime refuses it
/// and aborts the transaction, so nothing is deposited.
pub proof fn lemma_deposit_unsigned(context: Make, deposit: u64, l: Ledger)
    requires
        !(l.tx_signers)(context.escrow.key),
    ensures
        program_answer(l, seq![deposit_invocation(context, deposit).step]) == Ok::<Ledger, ()>(l),
        apply_steps(l, seq![deposit_invocation(context, deposit).step]) is None,
{
    lemma_steps_single(l, deposit_invocation(context, deposit).step);
}

} // verus!
