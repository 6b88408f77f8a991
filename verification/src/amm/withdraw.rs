//! Withdrawing liquidity.
use vstd::prelude::*;

use crate::amm::{CurveAmountsRequest, Pool, XYAmounts};
use crate::ledger::{
    apply_action, apply_actions, lemma_apply_triple, refuses, steps_of, token_account, Account, Ledger, Mint, Pubkey, Signer, Step,
    TokenAccount, TokenAction,
};

verus! {

/// Accounts of a liquidity withdrawal.
#[derive(Clone, Copy, Debug)]
pub struct WithdrawTokens {
    pub user: Pubkey,
    pub mint_x: Mint,
    pub mint_y: Mint,
    pub pool_account: Account<Pool>,
    pub user_token_x: TokenAccount,
    pub user_token_y: TokenAccount,
    pub token_vault_x: TokenAccount,
    pub token_vault_y: TokenAccount,
    pub lp_mint: Mint,
    pub user_lp_account: TokenAccount,
}

impl WithdrawTokens {
    /// One of the two payouts, signed by the pool. Both are drawn from the X
    /// vault with X's decimals: the first to the user's Y account under X's
    /// mint, the second to the user's X account under Y's mint.
    pub open spec fn withdraw_tokens_action(&self, is_x: bool, amount: u64) -> TokenAction {
        if is_x {
            TokenAction::TransferChecked {
                from: self.token_vault_x.key,
                to: self.user_token_y.key,
                mint: self.mint_x.key,
                authority: self.pool_account.key,
                amount,
                decimals: self.mint_x.decimals,
            }
        } else {
            TokenAction::TransferChecked {
                from: self.token_vault_x.key,
                to: self.user_token_x.key,
                mint: self.mint_y.key,
                authority: self.pool_account.key,
                amount,
                decimals: self.mint_x.decimals,
            }
        }
    }

    /// The burning of the user's LP tokens.
    pub open spec fn burn_lp_tokens_action(&self, amount: u64) -> TokenAction {
        TokenAction::Burn { mint: self.lp_mint.key, from: self.user_lp_account.key, authority: self.user, amount }
    }

    /// The three actions of a withdrawal, given the curve's answer.
    pub open spec fn withdraw_plan(&self, amount_lp: u64, curve: XYAmounts) -> Seq<TokenAction> {
        seq![
            self.withdraw_tokens_action(true, curve.x),
            self.withdraw_tokens_action(false, curve.y),
            self.burn_lp_tokens_action(amount_lp),
        ]
    }

    /// The curve query of a withdrawal: `xy_withdraw_amounts_from_l` on the
    /// user's minima, the LP supply, the LP amount and the LP decimals.
    pub fn withdraw_request(&self, min_x: u64, min_y: u64, amount_lp: u64) -> (r: CurveAmountsRequest)
        ensures
            r == (CurveAmountsRequest {
                x: min_x,
                y: min_y,
                l: self.lp_mint.supply,
                a: amount_lp,
                precision: self.lp_mint.decimals as u32,
            }),
    {
        CurveAmountsRequest {
            x: min_x,
            y: min_y,
            l: self.lp_mint.supply,
            a: amount_lp,
            precision: self.lp_mint.decimals as u32,
        }
    }

    /// Pays out the curve's amounts (`curve`, the answer to
    /// `withdraw_request`) and burns `amount_lp` LP tokens.
    pub fn withdraw(&self, min_x: u64, min_y: u64, amount_lp: u64, curve: XYAmounts) -> (r: Vec<Step>)
        ensures
            r@ == steps_of(
                self.withdraw_plan(amount_lp, curve),
                seq![
                    Signer::Pool { seed: self.pool_account.data.seed, bump: self.pool_account.data.pool_bump },
                    Signer::Pool { seed: self.pool_account.data.seed, bump: self.pool_account.data.pool_bump },
                    Signer::Transaction,
                ],
                false,
            ),
    {
        let mut plan: Vec<Step> = Vec::new();
        plan.push(self.withdraw_tokens(true, curve.x));
        plan.push(self.withdraw_tokens(false, curve.y));
        plan.push(self.burn_lp_tokens(amount_lp));
        assert(plan@ =~= steps_of(
            self.withdraw_plan(amount_lp, curve),
            seq![
                Signer::Pool { seed: self.pool_account.data.seed, bump: self.pool_account.data.pool_bump },
                Signer::Pool { seed: self.pool_account.data.seed, bump: self.pool_account.data.pool_bump },
                Signer::Transaction,
            ],
            false,
        ));
        plan
    }

    /// One payout of the withdrawal.
    pub fn withdraw_tokens(&self, is_x: bool, amount: u64) -> (r: Step)
        ensures
            r == (Step { action: self.withdraw_tokens_action(is_x, amount), signer: Signer::Pool { seed: self.pool_account.data.seed, bump: self.pool_account.data.pool_bump }, ignore_failure: false }),
    {
        let action = {
            if is_x {
                TokenAction::TransferChecked {
                    from: self.token_vault_x.key,
                    to: self.user_token_y.key,
                    mint: self.mint_x.key,
                    authority: self.pool_account.key,
                    amount,
                    decimals: self.mint_x.decimals,
                }
            } else {
                TokenAction::TransferChecked {
                    from: self.token_vault_x.key,
                    to: self.user_token_x.key,
                    mint: self.mint_y.key,
                    authority: self.pool_account.key,
                    amount,
                    decimals: self.mint_x.decimals,
                }
            }
        };
        Step { action, signer: Signer::Pool { seed: self.pool_account.data.seed, bump: self.pool_account.data.pool_bump }, ignore_failure: false }
    }

    /// The burn of `amount` LP tokens from the user's LP account.
    pub fn burn_lp_tokens(&self, amount: u64) -> (r: Step)
        ensures
            r == (Step { action: self.burn_lp_tokens_action(amount), signer: Signer::Transaction, ignore_failure: false }),
    {
        let action = {
            TokenAction::Burn { mint: self.lp_mint.key, from: self.user_lp_account.key, authority: self.user, amount }
        };
        Step { action, signer: Signer::Transaction, ignore_failure: false }
    }
}

/// When the runtime carries a withdrawal out: both of the curve's amounts
/// leave the X vault (the X amount to the user's Y account, the Y amount to
/// the user's X account), the Y vault is untouched, and `amount_lp` LP tokens
/// are burnt from the user's LP account, the LP supply falling by as much.
pub proof fn lemma_withdraw_balances(w: WithdrawTokens, amount_lp: u64, curve: XYAmounts, l: Ledger)
    requires
        w.token_vault_x.key != w.user_token_x.key,
        w.token_vault_x.key != w.user_token_y.key,
        w.token_vault_x.key != w.user_lp_account.key,
        w.user_token_x.key != w.user_token_y.key,
        w.user_token_x.key != w.user_lp_account.key,
        w.user_token_y.key != w.user_lp_account.key,
    ensures
        apply_actions(l, w.withdraw_plan(amount_lp, curve)) matches Some(r) ==> {
            &&& (r.tokens)(w.token_vault_x.key) == (l.tokens)(w.token_vault_x.key) - curve.x - curve.y
            &&& (r.tokens)(w.user_token_y.key) == (l.tokens)(w.user_token_y.key) + curve.x
            &&& (r.tokens)(w.user_token_x.key) == (l.tokens)(w.user_token_x.key) + curve.y
            &&& (r.tokens)(w.user_lp_account.key) == (l.tokens)(w.user_lp_account.key) - amount_lp
            &&& forall|k: Pubkey|
                k != w.token_vault_x.key && k != w.user_token_x.key && k != w.user_token_y.key && k
                    != w.user_lp_account.key ==> #[trigger] (r.tokens)(k) == (l.tokens)(k)
            &&& (r.supply)(w.lp_mint.key) == (l.supply)(w.lp_mint.key) - amount_lp
            &&& forall|m: Pubkey| m != w.lp_mint.key ==> #[trigger] (r.supply)(m) == (l.supply)(m)
            &&& r.lamports == l.lamports
        },
{
    lemma_apply_triple(
        l,
        w.withdraw_tokens_action(true, curve.x),
        w.withdraw_tokens_action(false, curve.y),
        w.burn_lp_tokens_action(amount_lp),
    );
}

/// The second payout draws Y's mint from the X vault, so when the X vault
/// holds X's mint and the two mints differ, the token program refuses every
/// withdrawal.
pub proof fn lemma_withdraw_refused(w: WithdrawTokens, amount_lp: u64, curve: XYAmounts, l: Ledger)
    requires
        w.mint_x.key != w.mint_y.key,
        (l.mint_of)(w.token_vault_x.key) == w.mint_x.key,
    ensures
        apply_actions(l, w.withdraw_plan(amount_lp, curve)) is None,
{
    let a = w.withdraw_tokens_action(true, curve.x);
    let b = w.withdraw_tokens_action(false, curve.y);
    let c = w.burn_lp_tokens_action(amount_lp);
    lemma_apply_triple(l, a, b, c);
    if let Some(l1) = apply_action(l, a) {
        assert(l1.mint_of == l.mint_of);
        assert(refuses(l1, b));
    }
}

/// The burn of LP tokens: refused when the user's LP account holds fewer
/// than `amount`; when the account is the user's token account of the LP
/// mint and the supply covers `amount`, it goes through, and the account's
/// balance and the LP supply both fall by `amount`.
pub proof fn lemma_burn_lp_tokens(w: WithdrawTokens, amount: u64, l: Ledger)
    ensures
        (l.tokens)(w.user_lp_account.key) < amount ==> apply_action(l, w.burn_lp_tokens_action(amount)) is None,
        (l.tokens)(w.user_lp_account.key) >= amount && (l.is_token_account)(w.user_lp_account.key) && (
        l.mint_of)(w.user_lp_account.key) == w.lp_mint.key && (l.owner_of)(w.user_lp_account.key) == w.user && (
        l.supply)(w.lp_mint.key) >= amount ==> apply_action(l, w.burn_lp_tokens_action(amount)) is Some,
        apply_action(l, w.burn_lp_tokens_action(amount)) matches Some(r) ==> {
            &&& (r.tokens)(w.user_lp_account.key) == (l.tokens)(w.user_lp_account.key) - amount
            &&& (r.supply)(w.lp_mint.key) == (l.supply)(w.lp_mint.key) - amount
            &&& forall|k: Pubkey| k != w.user_lp_account.key ==> #[trigger] (r.tokens)(k) == (l.tokens)(k)
            &&& forall|m: Pubkey| m != w.lp_mint.key ==> #[trigger] (r.supply)(m) == (l.supply)(m)
            &&& r.lamports == l.lamports
        },
{
}

/// Each payout of a withdrawal carries X's decimals, whichever mint it
/// names (X's for the first, Y's for the second), and draws on the X vault:
/// with the X vault and the receiving user account token accounts of that
/// named mint, the vault owned by the pool and holding the curve's amount,
/// and the user's account with room for it, the runtime carries the payout
/// out exactly when the named mint's decimals are X's; it then moves exactly
/// the curve's amount from the X vault to the user.
pub proof fn lemma_withdraw_payout_decimals(w: WithdrawTokens, amount_lp: u64, curve: XYAmounts, first: bool, l: Ledger)
    requires
        ({
            let mint_named = if first { w.mint_x.key } else { w.mint_y.key };
            let user_out = if first { w.user_token_y.key } else { w.user_token_x.key };
            let amount = if first { curve.x } else { curve.y };
            &&& token_account(l, w.token_vault_x.key, mint_named, w.pool_account.key)
            &&& (l.is_token_account)(user_out)
            &&& (l.mint_of)(user_out) == mint_named
            &&& w.token_vault_x.key != user_out
            &&& (l.tokens)(w.token_vault_x.key) >= amount
            &&& (l.tokens)(user_out) + amount <= u64::MAX
        }),
    ensures
        ({
            let mint_named = if first { w.mint_x.key } else { w.mint_y.key };
            let user_out = if first { w.user_token_y.key } else { w.user_token_x.key };
            let amount = if first { curve.x } else { curve.y };
            let payout = w.withdraw_plan(amount_lp, curve)[if first { 0int } else { 1int }];
            &&& apply_action(l, payout) is Some <==> (l.decimals)(mint_named) == w.mint_x.decimals
            &&& apply_action(l, payout) matches Some(r) ==> (r.tokens)(w.token_vault_x.key) == (l.tokens)(
                w.token_vault_x.key,
            ) - amount && (r.tokens)(user_out) == (l.tokens)(user_out) + amount
        }),
{
}

} // verus!
