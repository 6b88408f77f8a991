//! Taking an escrow.
use vstd::prelude::*;

use crate::escrow::{close_escrow, close_escrow_step, drain_vault, drain_vault_actions, drain_vault_steps, Escrow};
use crate::ledger::{
    actions_of, apply_actions, apply_steps, lemma_apply_quad, lemma_apply_steps, refuses, signed, Account, Ledger, Mint, Pubkey, Signer, Step, TokenAccount,
    TokenAction,
};

verus! {

/// Accounts of the taking of an escrow.
#[derive(Clone, Copy, Debug)]
pub struct Take {
    pub signer: Pubkey,
    pub maker: Pubkey,
    pub mint_a: Mint,
    pub mint_b: Mint,
    pub self_asso_a: TokenAccount,
    pub self_ass_b: TokenAccount,
    pub market_asso_b: TokenAccount,
    pub escrow: Account<Escrow>,
    pub vault: TokenAccount,
}

/// The payment of the demanded B tokens from the signer's B account to the
/// maker's address.
pub open spec fn take_payment_action(context: Take) -> TokenAction {
    TokenAction::TransferChecked {
        from: context.market_asso_b.key,
        to: context.maker,
        mint: context.mint_b.key,
        authority: context.signer,
        amount: context.escrow.data.demand,
        decimals: context.mint_b.decimals,
    }
}

/// The actions of `take`.
pub open spec fn take_plan(context: Take) -> Seq<TokenAction> {
    seq![take_payment_action(context)] + drain_vault_actions(
        context.escrow.key,
        context.vault,
        context.market_asso_b.key,
        context.mint_a,
        context.signer,
    ) + seq![close_escrow_step(context.escrow.key, context.signer).action]
}

/// The steps of `take`: the payment with the transaction's signatures, the
/// vault's draining, the escrow's closing.
pub open spec fn take_steps(context: Take) -> Seq<Step> {
    seq![Step { action: take_payment_action(context), signer: Signer::Transaction, ignore_failure: false }]
        + drain_vault_steps(
        context.escrow,
        context.vault,
        context.market_asso_b.key,
        context.mint_a,
        context.signer,
        false,
    ) + seq![close_escrow_step(context.escrow.key, context.signer)]
}

/// Takes the escrow: pays the demanded B tokens to the maker, then empties
/// the vault into the signer's B account (under mint A) and closes it to the
/// signer; the escrow's state account is closed to the signer too.
pub fn take(context: &Take) -> (r: Vec<Step>)
    ensures
        r@ == take_steps(*context),
        actions_of(r@) == take_plan(*context),
{
    let mut plan: Vec<Step> = Vec::new();
    plan.push(
        Step {
            action: TokenAction::TransferChecked {
                from: context.market_asso_b.key,
                to: context.maker,
                mint: context.mint_b.key,
                authority: context.signer,
                amount: context.escrow.data.demand,
                decimals: context.mint_b.decimals,
            },
            signer: Signer::Transaction,
            ignore_failure: false,
        },
    );
    let mut rest = refund(context);
    plan.append(&mut rest);
    plan.push(close_escrow(context.escrow.key, context.signer));
    assert(plan@ =~= take_steps(*context));
    assert(actions_of(plan@) =~= take_plan(*context));
    plan
}

/// The second half of `take`: the vault emptied into the signer's B account
/// and closed to the signer.
pub fn refund(context: &Take) -> (r: Vec<Step>)
    ensures
        r@ == drain_vault_steps(
            context.escrow,
            context.vault,
            context.market_asso_b.key,
            context.mint_a,
            context.signer,
            false,
        ),
{
    drain_vault(context.escrow, context.vault, context.market_asso_b.key, context.mint_a, context.signer, false)
}

/// When the runtime carries a take out: the demanded B tokens leave the
/// signer's B account for the maker's address, the whole vault comes back
/// into that same B account, the vault ends empty and closed, no other token
/// balance moves, and the escrow's state account is closed: the vault's and
/// the escrow's lamports both go to the signer.
pub proof fn lemma_take_balances(t: Take, l: Ledger)
    requires
        (l.tokens)(t.vault.key) == t.vault.amount,
        t.market_asso_b.key != t.maker,
        t.market_asso_b.key != t.vault.key,
        t.maker != t.vault.key,
        t.signer != t.vault.key,
        t.signer != t.escrow.key,
        t.vault.key != t.escrow.key,
    ensures
        apply_actions(l, take_plan(t)) matches Some(r) ==> {
            &&& (r.tokens)(t.maker) == (l.tokens)(t.maker) + t.escrow.data.demand
            &&& (r.tokens)(t.market_asso_b.key) == (l.tokens)(t.market_asso_b.key) - t.escrow.data.demand
                + t.vault.amount
            &&& (r.tokens)(t.vault.key) == 0
            &&& !(r.is_token_account)(t.vault.key)
            &&& forall|k: Pubkey|
                k != t.maker && k != t.market_asso_b.key && k != t.vault.key ==> #[trigger] (r.tokens)(k) == (
                l.tokens)(k)
            &&& !(r.is_program_account)(t.escrow.key)
            &&& (r.lamports)(t.vault.key) == 0
            &&& (r.lamports)(t.escrow.key) == 0
            &&& (r.lamports)(t.signer) == (l.lamports)(t.signer) + (l.lamports)(t.vault.key) + (l.lamports)(
                t.escrow.key,
            )
        },
{
    let p = take_plan(t);
    assert(p == seq![p[0], p[1], p[2], p[3]]);
    lemma_apply_quad(l, p[0], p[1], p[2], p[3]);
}

/// The demand is paid to the maker's address, so when that address is no
/// token account (a wallet) the runtime refuses the whole take.
pub proof fn lemma_take_needs_token_account_maker(t: Take, l: Ledger)
    requires
        !(l.is_token_account)(t.maker),
    ensures
        apply_actions(l, take_plan(t)) is None,
{
    let p = take_plan(t);
    assert(p == seq![p[0], p[1], p[2], p[3]]);
    lemma_apply_quad(l, p[0], p[1], p[2], p[3]);
    assert(refuses(l, p[0]));
}

/// The vault's closing needs the escrow's signature, and `take` asks for it
/// with no seeds of the program's: unless the escrow's address signed the
/// transaction itself (a program's address cannot), the runtime refuses the
/// whole take.
pub proof fn lemma_take_close_unsigned(t: Take, l: Ledger)
    requires
        !(l.tx_signers)(t.escrow.key),
    ensures
        apply_steps(l, take_steps(t)) is None,
{
    let st = take_steps(t);
    lemma_apply_steps(l, st);
    assert(!signed(l, st[2]));
}

} // verus!
