//! A token escrow: the maker locks `amount` of token A in a vault and asks
//! `receive` of token B for it; a taker pays the B tokens and gets the vault,
//! or the maker takes the vault back.
use vstd::prelude::*;

use crate::ledger::{
    actions_of, all_signed, apply_action, apply_actions, apply_steps, carry_out, consistent, lemma_actions_keep_signatures,
    lemma_actions_of_steps_of, lemma_apply_quad, lemma_apply_single, lemma_apply_steps, lemma_apply_triple, refuses, signed, token_account,
    steps_of, Account, Ledger,
    Mint, Pubkey, Signer, Step, TokenAccount, TokenAction,
};

verus! {

/// Errors of the escrow program.
#[derive(Clone, Copy, Debug, PartialEq, Eq, Structural)]
pub enum EscrowError {
    InvalidAmount,
    InvalidMaker,
    InvalidMintA,
    InvalidMintB,
}

/// The escrow's state account.
#[derive(Clone, Copy, Debug, PartialEq, Eq)]
pub struct Escrow {
    pub seed: u64,
    pub maker: Pubkey,
    pub mint_a: Pubkey,
    pub mint_b: Pubkey,
    /// How many B tokens the maker asks.
    pub receive: u64,
    pub bump: u8,
}

/// Bump found for the escrow account that `make` creates.
#[derive(Clone, Copy, Debug)]
pub struct MakeBumps {
    pub escrow: u8,
}

/// Accounts of `make`.
#[derive(Clone, Copy, Debug)]
pub struct Make {
    pub maker: Pubkey,
    pub escrow: Account<Escrow>,
    pub mint_a: Mint,
    pub mint_b: Mint,
    pub maker_ata_a: TokenAccount,
    pub vault: TokenAccount,
}

/// Accounts of `take`.
#[derive(Clone, Copy, Debug)]
pub struct Take {
    pub taker: Pubkey,
    pub maker: Pubkey,
    pub escrow: Account<Escrow>,
    pub mint_a: Mint,
    pub mint_b: Mint,
    pub vault: TokenAccount,
    pub taker_ata_a: TokenAccount,
    pub taker_ata_b: TokenAccount,
    pub maker_ata_b: TokenAccount,
}

/// Accounts of `refund`.
#[derive(Clone, Copy, Debug)]
pub struct Refund {
    pub maker: Pubkey,
    pub escrow: Account<Escrow>,
    pub mint_a: Mint,
    pub mint_b: Mint,
    pub vault: TokenAccount,
    pub maker_ata_a: TokenAccount,
}

impl Make {
    /// The escrow state that `make` writes.
    pub open spec fn escrow_state(&self, seed: u64, amount: u64, bump: u8) -> Escrow {
        Escrow {
            seed,
            maker: self.maker,
            mint_a: self.mint_a.key,
            mint_b: self.mint_b.key,
            receive: amount,
            bump,
        }
    }

    /// The maker's deposit of A tokens into the vault.
    pub open spec fn deposit_tokens_action(&self, amount: u64) -> TokenAction {
        TokenAction::TransferChecked {
            from: self.maker_ata_a.key,
            to: self.vault.key,
            mint: self.mint_a.key,
            authority: self.maker,
            amount,
            decimals: self.mint_a.decimals,
        }
    }

    /// Records the offer: maker, both mints, the amount of B asked, the seed
    /// and the bump.
    pub fn populate_escrow(&mut self, seed: u64, amount: u64, bump: u8) -> (r: Result<(), EscrowError>)
        ensures
            r is Ok,
            final(self).escrow.data == old(self).escrow_state(seed, amount, bump),
            final(self).escrow.key == old(self).escrow.key,
            final(self).maker == old(self).maker,
            final(self).mint_a == old(self).mint_a,
            final(self).mint_b == old(self).mint_b,
            final(self).maker_ata_a == old(self).maker_ata_a,
            final(self).vault == old(self).vault,
    {
        self.escrow.data = Escrow {
            seed,
            maker: self.maker,
            mint_a: self.mint_a.key,
            mint_b: self.mint_b.key,
            receive: amount,
            bump,
        };
        Ok(())
    }

    /// Moves `amount` A tokens from the maker into the vault.
    pub fn deposit_tokens(&self, amount: u64) -> (r: Step)
        ensures
            r == (Step { action: self.deposit_tokens_action(amount), signer: Signer::Transaction, ignore_failure: false }),
    {
        let action = {
            TokenAction::TransferChecked {
                from: self.maker_ata_a.key,
                to: self.vault.key,
                mint: self.mint_a.key,
                authority: self.maker,
                amount,
                decimals: self.mint_a.decimals,
            }
        };
        Step { action, signer: Signer::Transaction, ignore_failure: false }
    }
}

/// Opens an offer: records it (asking `recieve` B tokens) and deposits
/// `amount` A tokens into the vault. Both amounts are unsigned, so the
/// program's non-negativity checks always pass.
pub fn make(ctx: &mut Make, seed: u64, recieve: u64, amount: u64, bumps: MakeBumps) -> (r: Result<
    Vec<Step>,
    EscrowError,
>)
    ensures
        r is Ok,
        r->Ok_0@ == make_steps(*old(ctx), amount),
        final(ctx).escrow.data == old(ctx).escrow_state(seed, recieve, bumps.escrow),
        final(ctx).escrow.key == old(ctx).escrow.key,
        final(ctx).maker == old(ctx).maker,
        final(ctx).mint_a == old(ctx).mint_a,
        final(ctx).mint_b == old(ctx).mint_b,
        final(ctx).maker_ata_a == old(ctx).maker_ata_a,
        final(ctx).vault == old(ctx).vault,
{
    let _ = ctx.populate_escrow(seed, recieve, bumps.escrow);
    let mut plan: Vec<Step> = Vec::new();
    plan.push(ctx.deposit_tokens(amount));
    assert(plan@ =~= make_steps(*old(ctx), amount));
    Ok(plan)
}

/// The vault's whole content paid to `to`, then the vault closed to the
/// maker; both signed by the escrow.
pub open spec fn empty_vault_actions(escrow: Pubkey, vault: TokenAccount, to: Pubkey, mint_a: Mint, maker: Pubkey) -> Seq<
    TokenAction,
> {
    seq![
        TokenAction::TransferChecked {
            from: vault.key,
            to,
            mint: mint_a.key,
            authority: escrow,
            amount: vault.amount,
            decimals: mint_a.decimals,
        },
        TokenAction::CloseAccount { account: vault.key, destination: maker, authority: escrow },
    ]
}

/// The escrow's own signature: its seeds are the maker, the offer's seed and
/// its bump.
pub open spec fn escrow_signer(maker: Pubkey, escrow: Escrow) -> Signer {
    Signer::Escrow { owner: maker, seed: escrow.seed, bump: escrow.bump }
}

fn empty_vault(escrow: Account<Escrow>, vault: TokenAccount, to: Pubkey, mint_a: Mint, maker: Pubkey) -> (r: Vec<
    Step,
>)
    ensures
        r@ == steps_of(
            empty_vault_actions(escrow.key, vault, to, mint_a, maker),
            seq![escrow_signer(maker, escrow.data), escrow_signer(maker, escrow.data)],
            false,
        ),
{
    let signer = Signer::Escrow { owner: maker, seed: escrow.data.seed, bump: escrow.data.bump };
    let mut plan: Vec<Step> = Vec::new();
    plan.push(
        Step {
            action: TokenAction::TransferChecked {
                from: vault.key,
                to,
                mint: mint_a.key,
                authority: escrow.key,
                amount: vault.amount,
                decimals: mint_a.decimals,
            },
            signer,
            ignore_failure: false,
        },
    );
    plan.push(
        Step {
            action: TokenAction::CloseAccount { account: vault.key, destination: maker, authority: escrow.key },
            signer,
            ignore_failure: false,
        },
    );
    assert(plan@ =~= steps_of(
        empty_vault_actions(escrow.key, vault, to, mint_a, maker),
        seq![escrow_signer(maker, escrow.data), escrow_signer(maker, escrow.data)],
        false,
    ));
    plan
}

impl Take {
    /// The taker's payment of the asked B tokens to the maker.
    pub open spec fn transfer_to_maker_action(&self) -> TokenAction {
        TokenAction::TransferChecked {
            from: self.taker_ata_b.key,
            to: self.maker_ata_b.key,
            mint: self.mint_b.key,
            authority: self.taker,
            amount: self.escrow.data.receive,
            decimals: self.mint_b.decimals,
        }
    }

    /// Pays the maker the `receive` B tokens that the offer asks.
    pub fn transfer_to_maker(&self) -> (r: Step)
        ensures
            r == (Step { action: self.transfer_to_maker_action(), signer: Signer::Transaction, ignore_failure: false }),
    {
        let action = {
            TokenAction::TransferChecked {
                from: self.taker_ata_b.key,
                to: self.maker_ata_b.key,
                mint: self.mint_b.key,
                authority: self.taker,
                amount: self.escrow.data.receive,
                decimals: self.mint_b.decimals,
            }
        };
        Step { action, signer: Signer::Transaction, ignore_failure: false }
    }

    /// Gives the taker the whole vault and closes it to the maker, both
    /// signed by the escrow.
    pub fn withdraw_and_close_vault(&self) -> (r: Vec<Step>)
        ensures
            r@ == steps_of(
                empty_vault_actions(self.escrow.key, self.vault, self.taker_ata_a.key, self.mint_a, self.maker),
                seq![escrow_signer(self.maker, self.escrow.data), escrow_signer(self.maker, self.escrow.data)],
                false,
            ),
    {
        empty_vault(self.escrow, self.vault, self.taker_ata_a.key, self.mint_a, self.maker)
    }
}

/// The escrow's state account closed to the maker, as its `close = maker`
/// constraint does when the instruction ends.
pub open spec fn close_escrow_action(escrow: Pubkey, maker: Pubkey) -> TokenAction {
    TokenAction::CloseProgramAccount { account: escrow, destination: maker }
}

fn close_escrow(escrow: Pubkey, maker: Pubkey) -> (r: Step)
    ensures
        r == (Step { action: close_escrow_action(escrow, maker), signer: Signer::Transaction, ignore_failure: false }),
{
    Step {
        action: TokenAction::CloseProgramAccount { account: escrow, destination: maker },
        signer: Signer::Transaction,
        ignore_failure: false,
    }
}

/// The actions of `take`.
pub open spec fn take_plan(ctx: Take) -> Seq<TokenAction> {
    seq![ctx.transfer_to_maker_action()] + empty_vault_actions(
        ctx.escrow.key,
        ctx.vault,
        ctx.taker_ata_a.key,
        ctx.mint_a,
        ctx.maker,
    ) + seq![close_escrow_action(ctx.escrow.key, ctx.maker)]
}

/// Takes an offer: the taker pays the asked B tokens to the maker and gets
/// every A token of the vault, which is then closed to the maker, and the
/// escrow's state account is closed to the maker.
pub fn take(ctx: &Take) -> (r: Result<Vec<Step>, EscrowError>)
    ensures
        r is Ok,
        r->Ok_0@ == take_steps(*ctx),
{
    let mut plan: Vec<Step> = Vec::new();
    plan.push(ctx.transfer_to_maker());
    let mut rest = ctx.withdraw_and_close_vault();
    plan.append(&mut rest);
    plan.push(close_escrow(ctx.escrow.key, ctx.maker));
    assert(plan@ =~= take_steps(*ctx));
    Ok(plan)
}

impl Refund {
    /// Gives the maker the whole vault back and closes it to the maker, both
    /// signed by the escrow.
    pub fn withdraw_and_close_vault(&self) -> (r: Vec<Step>)
        ensures
            r@ == steps_of(
                empty_vault_actions(self.escrow.key, self.vault, self.maker_ata_a.key, self.mint_a, self.maker),
                seq![escrow_signer(self.maker, self.escrow.data), escrow_signer(self.maker, self.escrow.data)],
                false,
            ),
    {
        empty_vault(self.escrow, self.vault, self.maker_ata_a.key, self.mint_a, self.maker)
    }
}

/// The actions of `refund`.
pub open spec fn refund_plan(ctx: Refund) -> Seq<TokenAction> {
    empty_vault_actions(ctx.escrow.key, ctx.vault, ctx.maker_ata_a.key, ctx.mint_a, ctx.maker) + seq![
        close_escrow_action(ctx.escrow.key, ctx.maker),
    ]
}

/// Cancels an offer: every A token of the vault goes back to the maker, the
/// vault is closed to the maker, and so is the escrow's state account.
pub fn refund(ctx: &Refund) -> (r: Result<Vec<Step>, EscrowError>)
    ensures
        r is Ok,
        r->Ok_0@ == refund_steps(*ctx),
{
    let mut plan = ctx.withdraw_and_close_vault();
    plan.push(close_escrow(ctx.escrow.key, ctx.maker));
    assert(plan@ =~= refund_steps(*ctx));
    Ok(plan)
}

/// The movements of a refund undo those of a make. `make` creates the vault, so it starts empty,
/// and the vault belongs to the escrow, an account of the program's. On a
/// consistent ledger, when the maker's deposit goes through and the refund
/// reads the vault's balance after it, the refund goes through too (unless
/// the maker's lamports would pass `u64::MAX`): every token balance is back
/// to what it was before the offer was made, the vault and the escrow's
/// state account are closed, and the lamports of both go to the maker.
pub proof fn lemma_refund_plan_undoes_deposit(m: Make, f: Refund, amount: u64, l: Ledger)
    requires
        consistent(l),
        m.maker_ata_a.key != m.vault.key,
        (l.tokens)(m.vault.key) == 0,
        (l.owner_of)(m.vault.key) == f.escrow.key,
        (l.is_program_account)(f.escrow.key),
        f.vault.key == m.vault.key,
        f.maker_ata_a.key == m.maker_ata_a.key,
        f.mint_a == m.mint_a,
        f.vault.amount == amount,
        f.maker != f.vault.key,
        f.maker != f.escrow.key,
        f.vault.key != f.escrow.key,
        (l.lamports)(f.maker) + (l.lamports)(f.vault.key) + (l.lamports)(f.escrow.key) <= u64::MAX,
    ensures
        apply_action(l, m.deposit_tokens_action(amount)) matches Some(l1) ==> (apply_actions(l1, refund_plan(f))
            matches Some(r) && {
            &&& r.tokens == l.tokens
            &&& !(r.is_token_account)(f.vault.key)
            &&& !(r.is_program_account)(f.escrow.key)
            &&& (r.lamports)(f.vault.key) == 0
            &&& (r.lamports)(f.escrow.key) == 0
            &&& (r.lamports)(f.maker) == (l.lamports)(f.maker) + (l.lamports)(f.vault.key) + (l.lamports)(
                f.escrow.key,
            )
        }),
{
    let a = m.deposit_tokens_action(amount);
    assert(0 <= (l.tokens)(m.maker_ata_a.key) <= u64::MAX);
    assert(0 <= (l.lamports)(f.maker) && 0 <= (l.lamports)(f.vault.key) && 0 <= (l.lamports)(f.escrow.key));
    if let Some(l1) = apply_action(l, a) {
        let p = refund_plan(f);
        assert(p == seq![p[0], p[1], p[2]]);
        lemma_apply_triple(l1, p[0], p[1], p[2]);
        assert(!refuses(l1, p[0]));
        let l2 = carry_out(l1, p[0]);
        assert((l2.tokens)(f.vault.key) == 0);
        assert(!refuses(l2, p[1]));
        let l3 = carry_out(l2, p[1]);
        assert(!refuses(l3, p[2]));
        let r = carry_out(l3, p[2]);
        assert(r.tokens =~= l.tokens);
    }
}

/// The steps of `make`: the maker's deposit, with the transaction's
/// signatures.
pub open spec fn make_steps(ctx: Make, amount: u64) -> Seq<Step> {
    steps_of(seq![ctx.deposit_tokens_action(amount)], seq![Signer::Transaction], false)
}

/// The steps of `refund`: the vault's payout and closing, signed by the
/// escrow, then the escrow's closing.
pub open spec fn refund_steps(ctx: Refund) -> Seq<Step> {
    steps_of(
        refund_plan(ctx),
        seq![escrow_signer(ctx.maker, ctx.escrow.data), escrow_signer(ctx.maker, ctx.escrow.data), Signer::Transaction],
        false,
    )
}

/// A refund undoes a make, signatures included. The maker signs the
/// transaction of `make`, and the escrow's seeds (the maker, the offer's
/// seed, its bump) derive the escrow's address, as its seeds constraint
/// checks. `make` creates the vault, so it starts empty, and the vault
/// belongs to the escrow, an account of the program's. On a consistent
/// ledger, when `make`'s steps go through and the refund reads the vault's
/// balance after them, the refund's steps go through too (unless the
/// maker's lamports would pass `u64::MAX`): every token balance is back to
/// what it was before the offer was made, the vault and the escrow's state
/// account are closed, and the lamports of both go to the maker.
pub proof fn lemma_refund_undoes_make(m: Make, f: Refund, amount: u64, l: Ledger)
    requires
        consistent(l),
        (l.tx_signers)(m.maker),
        (l.derived)(escrow_signer(f.maker, f.escrow.data)) == Some(f.escrow.key),
        m.maker_ata_a.key != m.vault.key,
        (l.tokens)(m.vault.key) == 0,
        (l.owner_of)(m.vault.key) == f.escrow.key,
        (l.is_program_account)(f.escrow.key),
        f.vault.key == m.vault.key,
        f.maker_ata_a.key == m.maker_ata_a.key,
        f.mint_a == m.mint_a,
        f.vault.amount == amount,
        f.maker != f.vault.key,
        f.maker != f.escrow.key,
        f.vault.key != f.escrow.key,
        (l.lamports)(f.maker) + (l.lamports)(f.vault.key) + (l.lamports)(f.escrow.key) <= u64::MAX,
    ensures
        apply_steps(l, make_steps(m, amount)) matches Some(l1) ==> (apply_steps(l1, refund_steps(f)) matches Some(
            r,
        ) && {
            &&& r.tokens == l.tokens
            &&& !(r.is_token_account)(f.vault.key)
            &&& !(r.is_program_account)(f.escrow.key)
            &&& (r.lamports)(f.vault.key) == 0
            &&& (r.lamports)(f.escrow.key) == 0
            &&& (r.lamports)(f.maker) == (l.lamports)(f.maker) + (l.lamports)(f.vault.key) + (l.lamports)(
                f.escrow.key,
            )
        }),
{
    let ms = make_steps(m, amount);
    let fs = refund_steps(f);
    lemma_apply_steps(l, ms);
    lemma_actions_of_steps_of(seq![m.deposit_tokens_action(amount)], seq![Signer::Transaction], false);
    lemma_apply_single(l, m.deposit_tokens_action(amount));
    lemma_refund_plan_undoes_deposit(m, f, amount, l);
    if let Some(l1) = apply_steps(l, ms) {
        lemma_actions_keep_signatures(l, actions_of(ms));
        lemma_apply_steps(l1, fs);
        lemma_actions_of_steps_of(
            refund_plan(f),
            seq![escrow_signer(f.maker, f.escrow.data), escrow_signer(f.maker, f.escrow.data), Signer::Transaction],
            false,
        );
        assert(all_signed(l1, fs)) by {
            assert forall|i: int| 0 <= i < fs.len() implies signed(l1, #[trigger] fs[i]) by {
                assert(fs[i].action == refund_plan(f)[i]);
            }
        }
    }
}

/// The maker is paid what the offer asked: a take of an escrow written by
/// `make` with `recieve` B tokens asked pays exactly `recieve` tokens of the
/// offer's mint B to the maker's B account.
pub proof fn lemma_take_pays_the_ask(m: Make, seed: u64, recieve: u64, bump: u8, t: Take)
    requires
        t.escrow.data == m.escrow_state(seed, recieve, bump),
        t.mint_b.key == t.escrow.data.mint_b,
    ensures
        t.transfer_to_maker_action() matches TokenAction::TransferChecked { to, mint, amount, .. } && to
            == t.maker_ata_b.key && mint == m.mint_b.key && amount == recieve,
{
}

/// When the runtime carries a take out, it settles both sides: the maker's
/// B account gains the asked `receive` that the taker's B account loses, the
/// taker's A account gains the whole vault, which ends empty and closed, no
/// other token balance moves, and the escrow's state account is closed: the
/// vault's and the escrow's lamports both go to the maker.
pub proof fn lemma_take_settles(t: Take, l: Ledger)
    requires
        (l.tokens)(t.vault.key) == t.vault.amount,
        t.taker_ata_b.key != t.maker_ata_b.key,
        t.taker_ata_b.key != t.vault.key,
        t.taker_ata_b.key != t.taker_ata_a.key,
        t.maker_ata_b.key != t.vault.key,
        t.maker_ata_b.key != t.taker_ata_a.key,
        t.vault.key != t.taker_ata_a.key,
        t.maker != t.vault.key,
        t.maker != t.escrow.key,
        t.vault.key != t.escrow.key,
    ensures
        apply_actions(l, take_plan(t)) matches Some(r) ==> {
            &&& (r.tokens)(t.maker_ata_b.key) == (l.tokens)(t.maker_ata_b.key) + t.escrow.data.receive
            &&& (r.tokens)(t.taker_ata_b.key) == (l.tokens)(t.taker_ata_b.key) - t.escrow.data.receive
            &&& (r.tokens)(t.taker_ata_a.key) == (l.tokens)(t.taker_ata_a.key) + t.vault.amount
            &&& (r.tokens)(t.vault.key) == 0
            &&& !(r.is_token_account)(t.vault.key)
            &&& forall|k: Pubkey|
                k != t.maker_ata_b.key && k != t.taker_ata_b.key && k != t.taker_ata_a.key && k != t.vault.key
                    ==> #[trigger] (r.tokens)(k) == (l.tokens)(k)
            &&& !(r.is_program_account)(t.escrow.key)
            &&& (r.lamports)(t.vault.key) == 0
            &&& (r.lamports)(t.escrow.key) == 0
            &&& (r.lamports)(t.maker) == (l.lamports)(t.maker) + (l.lamports)(t.vault.key) + (l.lamports)(
                t.escrow.key,
            )
        },
{
    let p = take_plan(t);
    assert(p == seq![p[0], p[1], p[2], p[3]]);
    lemma_apply_quad(l, p[0], p[1], p[2], p[3]);
}

/// The steps of `take`.
pub open spec fn take_steps(ctx: Take) -> Seq<Step> {
    steps_of(
        take_plan(ctx),
        seq![
            Signer::Transaction,
            escrow_signer(ctx.maker, ctx.escrow.data),
            escrow_signer(ctx.maker, ctx.escrow.data),
            Signer::Transaction,
        ],
        false,
    )
}

/// A take that the taker can pay goes through. The taker signs the
/// transaction and the escrow's seeds derive its address; the four token
/// accounts are what the accounts' constraints make them (the taker's and
/// the maker's B accounts of mint B, the vault and the taker's A account of
/// mint A, the vault owned by the escrow), the mints' decimals are as read,
/// the vault holds what was read of it, the escrow is the program's, and
/// the ledger is consistent. Then, when the taker's B account holds the
/// asked `receive` and no balance would pass `u64::MAX`, the runtime carries
/// every step of the take out.
pub proof fn lemma_take_goes_through(t: Take, l: Ledger)
    requires
        consistent(l),
        (l.tx_signers)(t.taker),
        (l.derived)(escrow_signer(t.maker, t.escrow.data)) == Some(t.escrow.key),
        token_account(l, t.taker_ata_b.key, t.mint_b.key, t.taker),
        (l.is_token_account)(t.maker_ata_b.key),
        (l.mint_of)(t.maker_ata_b.key) == t.mint_b.key,
        token_account(l, t.vault.key, t.mint_a.key, t.escrow.key),
        (l.is_token_account)(t.taker_ata_a.key),
        (l.mint_of)(t.taker_ata_a.key) == t.mint_a.key,
        (l.decimals)(t.mint_a.key) == t.mint_a.decimals,
        (l.decimals)(t.mint_b.key) == t.mint_b.decimals,
        (l.tokens)(t.vault.key) == t.vault.amount,
        (l.is_program_account)(t.escrow.key),
        t.taker_ata_b.key != t.maker_ata_b.key,
        t.vault.key != t.taker_ata_a.key,
        t.taker_ata_b.key != t.vault.key,
        t.taker_ata_b.key != t.taker_ata_a.key,
        t.maker_ata_b.key != t.vault.key,
        t.maker_ata_b.key != t.taker_ata_a.key,
        t.maker != t.vault.key,
        t.maker != t.escrow.key,
        t.vault.key != t.escrow.key,
        (l.tokens)(t.taker_ata_b.key) >= t.escrow.data.receive,
        (l.tokens)(t.maker_ata_b.key) + t.escrow.data.receive <= u64::MAX,
        (l.tokens)(t.taker_ata_a.key) + t.vault.amount <= u64::MAX,
        (l.lamports)(t.maker) + (l.lamports)(t.vault.key) + (l.lamports)(t.escrow.key) <= u64::MAX,
    ensures
        apply_steps(l, take_steps(t)) is Some,
{
    let st = take_steps(t);
    let p = take_plan(t);
    lemma_apply_steps(l, st);
    lemma_actions_of_steps_of(
        p,
        seq![
            Signer::Transaction,
            escrow_signer(t.maker, t.escrow.data),
            escrow_signer(t.maker, t.escrow.data),
            Signer::Transaction,
        ],
        false,
    );
    assert(all_signed(l, st)) by {
        assert forall|i: int| 0 <= i < st.len() implies signed(l, #[trigger] st[i]) by {
            assert(st[i].action == p[i]);
        }
    }
    assert(p == seq![p[0], p[1], p[2], p[3]]);
    lemma_apply_quad(l, p[0], p[1], p[2], p[3]);
    assert(0 <= (l.lamports)(t.maker) && 0 <= (l.lamports)(t.vault.key) && 0 <= (l.lamports)(t.escrow.key));
    assert(!refuses(l, p[0]));
    let l1 = carry_out(l, p[0]);
    assert(!refuses(l1, p[1]));
    let l2 = carry_out(l1, p[1]);
    assert(!refuses(l2, p[2]));
    let l3 = carry_out(l2, p[2]);
    assert(!refuses(l3, p[3]));
}

/// The taker gets token A only if the maker is paid: when the taker's B
/// account holds less than the asked `receive`, the payment is refused, so
/// the whole take is, and no balance changes.
pub proof fn lemma_take_refused_unless_paid(t: Take, l: Ledger)
    requires
        (l.tokens)(t.taker_ata_b.key) < t.escrow.data.receive,
    ensures
        apply_actions(l, take_plan(t)) is None,
{
    let p = take_plan(t);
    assert(p == seq![p[0], p[1], p[2], p[3]]);
    lemma_apply_quad(l, p[0], p[1], p[2], p[3]);
    assert(refuses(l, p[0]));
}

} // verus!
