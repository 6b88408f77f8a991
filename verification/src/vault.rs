//! A SOL vault per user: deposits move lamports from the user into a vault
//! account owned by the program, withdrawals move them back.
use vstd::prelude::*;

use crate::ledger::{
    apply_step, apply_steps, carry_out, consistent, lemma_program_answer_when_carried_out, lemma_steps_pair,
    lemma_steps_single, program_answer, refuses, signed, Ledger, Pubkey, Step,
};
use crate::vault::deposit::Deposit;
use crate::vault::init::{Init, InitBumps};
use crate::vault::withdraw::Withdraw;

pub mod deposit;
pub mod init;
pub mod withdraw;

verus! {

/// The vault's state account: the bumps of the vault and of this state.
#[derive(Clone, Copy, Debug, PartialEq, Eq)]
pub struct VaultState {
    pub vault_bump: u8,
    pub state_bump: u8,
}

/// The `init` instruction: records the two bumps.
pub fn init(ctx: &mut Init, bumps: InitBumps)
    ensures
        final(ctx).vault_state.data == (VaultState { vault_bump: bumps.vault, state_bump: bumps.vault_state }),
        final(ctx).vault_state.key == old(ctx).vault_state.key,
        final(ctx).signer == old(ctx).signer,
        final(ctx).vault == old(ctx).vault,
{
    ctx.init(bumps);
}

/// The step that the `deposit` instruction asks for: the deposit's, whose
/// failure the instruction answers with success.
pub open spec fn deposit_instruction(ctx: Deposit, amount: u64) -> Step {
    Step { ignore_failure: true, ..ctx.deposit_step(amount) }
}

/// The step that the `withdraw` instruction asks for: the withdrawal's,
/// whose failure the instruction answers with success.
pub open spec fn withdraw_instruction(ctx: Withdraw, amount: u64) -> Step {
    Step { ignore_failure: true, ..ctx.withdraw_step(amount) }
}

/// The `deposit` instruction: it makes the deposit and discards the error
/// that the deposit may answer.
pub fn deposit(ctx: &Deposit, amount: u64) -> (r: Step)
    ensures
        r == deposit_instruction(*ctx, amount),
{
    let st = ctx.deposit(amount);
    Step { ignore_failure: true, ..st }
}

/// The `withdraw` instruction: it makes the withdrawal and discards the
/// error that the withdrawal may answer.
pub fn withdraw(ctx: &Withdraw, amount: u64) -> (r: Step)
    ensures
        r == withdraw_instruction(*ctx, amount),
{
    let st = ctx.withdraw(amount);
    Step { ignore_failure: true, ..st }
}

/// A deposit, signed by the user (a signer of the transaction), is refused
/// exactly when the user holds fewer lamports than `amount` (or the vault's
/// balance would pass `u64::MAX`). Then `Deposit::deposit` answers an error,
/// the `deposit` instruction answers success with nothing changed, and the
/// runtime aborts the transaction either way. Otherwise the user loses
/// `amount` lamports, the vault gains them, and nothing else changes.
pub proof fn lemma_deposit_outcome(d: Deposit, amount: u64, l: Ledger)
    requires
        d.vault != d.signer,
        (l.tx_signers)(d.signer),
    ensures
        apply_steps(l, seq![d.deposit_step(amount)]) is None <==> (l.lamports)(d.signer) < amount || (
        l.lamports)(d.vault) + amount > u64::MAX,
        program_answer(l, seq![d.deposit_step(amount)]) is Err <==> (l.lamports)(d.signer) < amount || (
        l.lamports)(d.vault) + amount > u64::MAX,
        apply_steps(l, seq![d.deposit_step(amount)]) is None ==> program_answer(
            l,
            seq![deposit_instruction(d, amount)],
        ) == Ok::<Ledger, ()>(l) && apply_steps(l, seq![deposit_instruction(d, amount)]) is None,
        apply_steps(l, seq![d.deposit_step(amount)]) matches Some(r) ==> {
            &&& (r.lamports)(d.signer) == (l.lamports)(d.signer) - amount
            &&& (r.lamports)(d.vault) == (l.lamports)(d.vault) + amount
            &&& forall|k: Pubkey| k != d.vault && k != d.signer ==> #[trigger] (r.lamports)(k) == (l.lamports)(k)
            &&& r.tokens == l.tokens
        },
{
    lemma_steps_single(l, d.deposit_step(amount));
    lemma_steps_single(l, deposit_instruction(d, amount));
}

/// A withdrawal, signed by the vault's seeds (which derive the vault's
/// address, as the accounts' seeds constraint checks), is refused exactly
/// when the vault holds fewer lamports than `amount` (or the user's balance
/// would pass `u64::MAX`). Then `Withdraw::withdraw` answers an error, the
/// `withdraw` instruction answers success with nothing changed, and the
/// runtime aborts the transaction either way. Otherwise the vault loses
/// `amount` lamports, the user gains them, and nothing else changes.
pub proof fn lemma_withdraw_outcome(w: Withdraw, amount: u64, l: Ledger)
    requires
        w.vault != w.signer,
        (l.derived)(w.vault_signer()) == Some(w.vault),
    ensures
        apply_steps(l, seq![w.withdraw_step(amount)]) is None <==> (l.lamports)(w.vault) < amount || (
        l.lamports)(w.signer) + amount > u64::MAX,
        program_answer(l, seq![w.withdraw_step(amount)]) is Err <==> (l.lamports)(w.vault) < amount || (
        l.lamports)(w.signer) + amount > u64::MAX,
        apply_steps(l, seq![w.withdraw_step(amount)]) is None ==> program_answer(
            l,
            seq![withdraw_instruction(w, amount)],
        ) == Ok::<Ledger, ()>(l) && apply_steps(l, seq![withdraw_instruction(w, amount)]) is None,
        apply_steps(l, seq![w.withdraw_step(amount)]) matches Some(r) ==> {
            &&& (r.lamports)(w.vault) == (l.lamports)(w.vault) - amount
            &&& (r.lamports)(w.signer) == (l.lamports)(w.signer) + amount
            &&& forall|k: Pubkey| k != w.vault && k != w.signer ==> #[trigger] (r.lamports)(k) == (l.lamports)(k)
            &&& r.tokens == l.tokens
        },
{
    lemma_steps_single(l, w.withdraw_step(amount));
    lemma_steps_single(l, withdraw_instruction(w, amount));
}

/// Withdrawing what was deposited restores every balance: on a consistent
/// ledger, with the user's signature and the vault's seeds, a deposit of
/// `amount` followed by a withdrawal of `amount` from the same vault to the
/// same user goes through whenever the deposit does, both methods answer
/// success, and the ledger is left as it was.
pub proof fn lemma_withdraw_undoes_deposit(d: Deposit, w: Withdraw, amount: u64, l: Ledger)
    requires
        consistent(l),
        w.signer == d.signer,
        w.vault == d.vault,
        (l.tx_signers)(d.signer),
        (l.derived)(w.vault_signer()) == Some(w.vault),
    ensures
        apply_steps(l, seq![d.deposit_step(amount)]) is Some ==> apply_steps(
            l,
            seq![d.deposit_step(amount), w.withdraw_step(amount)],
        ) == Some(l) && program_answer(l, seq![d.deposit_step(amount), w.withdraw_step(amount)]) == Ok::<
            Ledger,
            (),
        >(l),
{
    let a = d.deposit_step(amount);
    let b = w.withdraw_step(amount);
    lemma_program_answer_when_carried_out(l, seq![a, b]);
    lemma_steps_single(l, a);
    lemma_steps_pair(l, a, b);
    if let Some(l1) = apply_step(l, a) {
        assert(0 <= (l.lamports)(d.signer) <= u64::MAX);
        assert(0 <= (l.lamports)(d.vault) <= u64::MAX);
        assert(signed(l1, b));
        assert(!refuses(l1, b.action));
        let r = carry_out(l1, b.action);
        assert(r.lamports =~= l.lamports);
        assert(r == l);
    }
}

} // verus!
