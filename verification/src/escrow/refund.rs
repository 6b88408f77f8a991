//! Refunding an escrow.
use vstd::prelude::*;

use crate::escrow::{close_escrow, close_escrow_step, drain_vault, drain_vault_steps, Escrow};
use crate::ledger::{apply_steps, lemma_apply_steps, signed, Account, Ledger, Mint, Pubkey, Step, TokenAccount};

verus! {

/// Accounts of the refund of an escrow.
#[derive(Clone, Copy, Debug)]
pub struct Refund {
    pub signer: Pubkey,
    pub mint_a: Mint,
    pub market_asso_a: TokenAccount,
    pub escrow: Account<Escrow>,
    pub vault: TokenAccount,
}

/// The steps of a refund.
pub open spec fn refund_steps(context: Refund) -> Seq<Step> {
    drain_vault_steps(context.escrow, context.vault, context.market_asso_a.key, context.mint_a, context.signer, true)
        + seq![close_escrow_step(context.escrow.key, context.signer)]
}

/// Refunds the escrow: the vault's A tokens go back to the signer's A
/// account (the program goes on whether or not that transfer succeeds), the
/// vault is closed to the signer, and so is the escrow's state account.
pub fn refund(context: &Refund) -> (r: Vec<Step>)
    ensures
        r@ == refund_steps(*context),
{
    let mut plan = drain_vault(
        context.escrow,
        context.vault,
        context.market_asso_a.key,
        context.mint_a,
        context.signer,
        true,
    );
    plan.push(close_escrow(context.escrow.key, context.signer));
    assert(plan@ =~= refund_steps(*context));
    plan
}

/// The vault's closing needs the escrow's signature, and the refund asks for
/// it with no seeds of the program's: unless the escrow's address signed the
/// transaction itself (a program's address cannot), the runtime refuses the
/// refund.
pub proof fn lemma_refund_close_unsigned(context: Refund, l: Ledger)
    requires
        !(l.tx_signers)(context.escrow.key),
    ensures
        apply_steps(l, refund_steps(context)) is None,
{
    let st = refund_steps(context);
    lemma_apply_steps(l, st);
    assert(!signed(l, st[1]));
}

} // verus!
