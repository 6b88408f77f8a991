//! Swapping one token of the pair for the other.
use vstd::prelude::*;

use crate::amm::{CurveSwapRequest, LPErrors, Pool, SwapResult};
use crate::ledger::{
    apply_action, apply_actions, lemma_apply_pair, refuses, steps_of, token_account, Account, Ledger, Mint, Pubkey, Signer, Step,
    TokenAccount, TokenAction,
};

verus! {

/// Accounts of a swap.
#[derive(Clone, Copy, Debug)]
pub struct Swap {
    pub user: Pubkey,
    pub mint_x: Mint,
    pub mint_y: Mint,
    pub lp_mint: Mint,
    pub pool_account: Account<Pool>,
    pub vault_x: TokenAccount,
    pub vault_y: TokenAccount,
    pub user_token_x: TokenAccount,
    pub user_token_y: TokenAccount,
}

impl Swap {
    /// What the swap's checks answer: a locked pool first, then a zero amount.
    pub open spec fn swap_check(&self, amount: u64) -> Result<(), LPErrors> {
        if self.pool_account.data.locked {
            Err(LPErrors::PoolLocked)
        } else if amount == 0 {
            Err(LPErrors::ZeroBalance)
        } else {
            Ok(())
        }
    }

    /// The user pays `amount` of the side it gives into that side's vault.
    pub open spec fn deposit_token_action(&self, is_x: bool, amount: u64) -> TokenAction {
        if is_x {
            TokenAction::TransferChecked {
                from: self.user_token_x.key,
                to: self.vault_x.key,
                mint: self.mint_x.key,
                authority: self.user,
                amount,
                decimals: self.mint_x.decimals,
            }
        } else {
            TokenAction::TransferChecked {
                from: self.user_token_y.key,
                to: self.vault_y.key,
                mint: self.mint_y.key,
                authority: self.user,
                amount,
                decimals: self.mint_y.decimals,
            }
        }
    }

    /// The pool pays `amount` of the other side out of its vault, signed by
    /// the pool; the transfer names the given side's mint and X's decimals.
    pub open spec fn withdraw_token_action(&self, is_x: bool, amount: u64) -> TokenAction {
        if is_x {
            TokenAction::TransferChecked {
                from: self.vault_y.key,
                to: self.user_token_y.key,
                mint: self.mint_x.key,
                authority: self.pool_account.key,
                amount,
                decimals: self.mint_x.decimals,
            }
        } else {
            TokenAction::TransferChecked {
                from: self.vault_x.key,
                to: self.user_token_x.key,
                mint: self.mint_y.key,
                authority: self.pool_account.key,
                amount,
                decimals: self.mint_x.decimals,
            }
        }
    }

    /// The two transfers of a swap, given the curve's answer.
    pub open spec fn swap_plan(&self, is_x: bool, curve: SwapResult) -> Seq<TokenAction> {
        seq![self.deposit_token_action(is_x, curve.deposit), self.withdraw_token_action(is_x, curve.withdraw)]
    }

    /// The curve query of a swap that passed its checks: the curve is set up
    /// on both reserves, the LP supply and the pool fee, then asked to swap.
    pub fn swap_request(&self, is_x: bool, amount: u64, min_slippage_amount: u64) -> (r: Result<
        CurveSwapRequest,
        LPErrors,
    >)
        ensures
            match (r, self.swap_check(amount)) {
                (Ok(q), Ok(())) => q == (CurveSwapRequest {
                    x: self.vault_x.amount,
                    y: self.vault_y.amount,
                    l: self.lp_mint.supply,
                    fee: self.pool_account.data.fee,
                    is_x,
                    amount,
                    min: min_slippage_amount,
                }),
                (Err(e), Err(expected)) => e == expected,
                _ => false,
            },
    {
        if self.pool_account.data.locked {
            return Err(LPErrors::PoolLocked);
        }
        if amount == 0 {
            return Err(LPErrors::ZeroBalance);
        }
        Ok(
            CurveSwapRequest {
                x: self.vault_x.amount,
                y: self.vault_y.amount,
                l: self.lp_mint.supply,
                fee: self.pool_account.data.fee,
                is_x,
                amount,
                min: min_slippage_amount,
            },
        )
    }

    /// Swaps: refused on a locked pool (`PoolLocked`) or a zero amount
    /// (`ZeroBalance`); otherwise the user pays the curve's `deposit` in and
    /// receives its `withdraw` out (`curve`, the answer to `swap_request`).
    pub fn swap(&self, is_x: bool, amount: u64, min_slippage_amount: u64, curve: SwapResult) -> (r: Result<
        Vec<Step>,
        LPErrors,
    >)
        ensures
            match (r, self.swap_check(amount)) {
                (Ok(plan), Ok(())) => plan@ == steps_of(
                    self.swap_plan(is_x, curve),
                    seq![
                        Signer::Transaction,
                        Signer::Pool { seed: self.pool_account.data.seed, bump: self.pool_account.data.pool_bump },
                    ],
                    false,
                ),
                (Err(e), Err(expected)) => e == expected,
                _ => false,
            },
    {
        if self.pool_account.data.locked {
            return Err(LPErrors::PoolLocked);
        }
        if amount == 0 {
            return Err(LPErrors::ZeroBalance);
        }
        let mut plan: Vec<Step> = Vec::new();
        plan.push(self.deposit_token(is_x, curve.deposit));
        plan.push(self.withdraw_token(is_x, curve.withdraw));
        assert(plan@ =~= steps_of(
            self.swap_plan(is_x, curve),
            seq![
                Signer::Transaction,
                Signer::Pool { seed: self.pool_account.data.seed, bump: self.pool_account.data.pool_bump },
            ],
            false,
        ));
        Ok(plan)
    }

    /// The user's payment into the pool.
    pub fn deposit_token(&self, is_x: bool, amount: u64) -> (r: Step)
        ensures
            r == (Step { action: self.deposit_token_action(is_x, amount), signer: Signer::Transaction, ignore_failure: false }),
    {
        let action = {
            if is_x {
                TokenAction::TransferChecked {
                    from: self.user_token_x.key,
                    to: self.vault_x.key,
                    mint: self.mint_x.key,
                    authority: self.user,
                    amount,
                    decimals: self.mint_x.decimals,
                }
            } else {
                TokenAction::TransferChecked {
                    from: self.user_token_y.key,
                    to: self.vault_y.key,
                    mint: self.mint_y.key,
                    authority: self.user,
                    amount,
                    decimals: self.mint_y.decimals,
                }
            }
        };
        Step { action, signer: Signer::Transaction, ignore_failure: false }
    }

    /// The pool's payment to the user.
    pub fn withdraw_token(&self, is_x: bool, amount: u64) -> (r: Step)
        ensures
            r == (Step { action: self.withdraw_token_action(is_x, amount), signer: Signer::Pool { seed: self.pool_account.data.seed, bump: self.pool_account.data.pool_bump }, ignore_failure: false }),
    {
        let action = {
            if is_x {
                TokenAction::TransferChecked {
                    from: self.vault_y.key,
                    to: self.user_token_y.key,
                    mint: self.mint_x.key,
                    authority: self.pool_account.key,
                    amount,
                    decimals: self.mint_x.decimals,
                }
            } else {
                TokenAction::TransferChecked {
                    from: self.vault_x.key,
                    to: self.user_token_x.key,
                    mint: self.mint_y.key,
                    authority: self.pool_account.key,
                    amount,
                    decimals: self.mint_x.decimals,
                }
            }
        };
        Step { action, signer: Signer::Pool { seed: self.pool_account.data.seed, bump: self.pool_account.data.pool_bump }, ignore_failure: false }
    }
}

/// When the runtime carries a swap out, it moves the curve's `deposit` from
/// the user's account of the side given into that side's vault, and the
/// curve's `withdraw` from the other side's vault into the user's account of
/// the other side; no other balance changes.
pub proof fn lemma_swap_balances(s: Swap, is_x: bool, curve: SwapResult, l: Ledger)
    requires
        s.user_token_x.key != s.user_token_y.key,
        s.user_token_x.key != s.vault_x.key,
        s.user_token_x.key != s.vault_y.key,
        s.user_token_y.key != s.vault_x.key,
        s.user_token_y.key != s.vault_y.key,
        s.vault_x.key != s.vault_y.key,
    ensures
        apply_actions(l, s.swap_plan(is_x, curve)) matches Some(r) ==> {
            let user_in = if is_x { s.user_token_x.key } else { s.user_token_y.key };
            let vault_in = if is_x { s.vault_x.key } else { s.vault_y.key };
            let vault_out = if is_x { s.vault_y.key } else { s.vault_x.key };
            let user_out = if is_x { s.user_token_y.key } else { s.user_token_x.key };
            &&& (r.tokens)(user_in) == (l.tokens)(user_in) - curve.deposit
            &&& (r.tokens)(vault_in) == (l.tokens)(vault_in) + curve.deposit
            &&& (r.tokens)(vault_out) == (l.tokens)(vault_out) - curve.withdraw
            &&& (r.tokens)(user_out) == (l.tokens)(user_out) + curve.withdraw
            &&& forall|k: Pubkey|
                k != user_in && k != vault_in && k != vault_out && k != user_out ==> #[trigger] (r.tokens)(k) == (
                l.tokens)(k)
            &&& r.lamports == l.lamports
            &&& r.supply == l.supply
        },
{
    lemma_apply_pair(l, s.deposit_token_action(is_x, curve.deposit), s.withdraw_token_action(is_x, curve.withdraw));
}

/// The constant-product law, as far as the library holds it. The curve's
/// answer is handed in; when it keeps the product of the reserves from
/// falling (what the constant-product curve promises of its answers), a swap
/// that the runtime carries out leaves the product of the two vaults'
/// balances no lower than it was.
pub proof fn lemma_swap_keeps_product(s: Swap, is_x: bool, curve: SwapResult, l: Ledger)
    requires
        s.user_token_x.key != s.user_token_y.key,
        s.user_token_x.key != s.vault_x.key,
        s.user_token_x.key != s.vault_y.key,
        s.user_token_y.key != s.vault_x.key,
        s.user_token_y.key != s.vault_y.key,
        s.vault_x.key != s.vault_y.key,
        ({
            let vin = if is_x { (l.tokens)(s.vault_x.key) } else { (l.tokens)(s.vault_y.key) };
            let vout = if is_x { (l.tokens)(s.vault_y.key) } else { (l.tokens)(s.vault_x.key) };
            (vin + curve.deposit) * (vout - curve.withdraw) >= vin * vout
        }),
    ensures
        apply_actions(l, s.swap_plan(is_x, curve)) matches Some(r) ==> (r.tokens)(s.vault_x.key) * (r.tokens)(
            s.vault_y.key,
        ) >= (l.tokens)(s.vault_x.key) * (l.tokens)(s.vault_y.key),
{
    lemma_swap_balances(s, is_x, curve, l);
    if let Some(r) = apply_actions(l, s.swap_plan(is_x, curve)) {
        let (x0, y0) = ((l.tokens)(s.vault_x.key), (l.tokens)(s.vault_y.key));
        let (x1, y1) = ((r.tokens)(s.vault_x.key), (r.tokens)(s.vault_y.key));
        if !is_x {
            assert(x1 * y1 == y1 * x1 && x0 * y0 == y0 * x0) by (nonlinear_arith);
        }
    }
}

/// The pool's payout names the mint of the side given while it draws from
/// the other side's vault, so when the two vaults hold their own, distinct
/// mints the token program refuses every swap, in both directions.
pub proof fn lemma_swap_refused(s: Swap, is_x: bool, curve: SwapResult, l: Ledger)
    requires
        s.mint_x.key != s.mint_y.key,
        (l.mint_of)(s.vault_x.key) == s.mint_x.key,
        (l.mint_of)(s.vault_y.key) == s.mint_y.key,
    ensures
        apply_actions(l, s.swap_plan(is_x, curve)) is None,
{
    let a = s.deposit_token_action(is_x, curve.deposit);
    let b = s.withdraw_token_action(is_x, curve.withdraw);
    lemma_apply_pair(l, a, b);
    if let Some(l1) = apply_action(l, a) {
        assert(l1.mint_of == l.mint_of);
        assert(refuses(l1, b));
    }
}

/// The user's payment into the pool names the mint of the side given and
/// that mint's own decimals, so it goes through whenever the user can pay:
/// with the user's account of that side a token account of its mint owned by
/// the user, the vault of that side holding the same mint, that mint's
/// decimals as read, the user's balance covering the curve's `deposit` and
/// the vault with room for it, the runtime carries the payment out, moving
/// exactly `deposit` from the user to the vault.
pub proof fn lemma_swap_payment_goes_through(s: Swap, is_x: bool, curve: SwapResult, l: Ledger)
    requires
        ({
            let mint_in = if is_x { s.mint_x } else { s.mint_y };
            let user_in = if is_x { s.user_token_x.key } else { s.user_token_y.key };
            let vault_in = if is_x { s.vault_x.key } else { s.vault_y.key };
            &&& token_account(l, user_in, mint_in.key, s.user)
            &&& (l.is_token_account)(vault_in)
            &&& (l.mint_of)(vault_in) == mint_in.key
            &&& (l.decimals)(mint_in.key) == mint_in.decimals
            &&& user_in != vault_in
            &&& (l.tokens)(user_in) >= curve.deposit
            &&& (l.tokens)(vault_in) + curve.deposit <= u64::MAX
        }),
    ensures
        ({
            let user_in = if is_x { s.user_token_x.key } else { s.user_token_y.key };
            let vault_in = if is_x { s.vault_x.key } else { s.vault_y.key };
            apply_action(l, s.swap_plan(is_x, curve)[0]) matches Some(r) && (r.tokens)(user_in) == (l.tokens)(
                user_in,
            ) - curve.deposit && (r.tokens)(vault_in) == (l.tokens)(vault_in) + curve.deposit
        }),
{
}

/// The pool's payout of a swap carries X's decimals in both directions,
/// whichever mint it names (the given side's): with the other side's vault
/// and the user's account of the other side token accounts of that named
/// mint, the vault owned by the pool and holding the curve's `withdraw`, and
/// the user's account with room for it, the runtime carries the payout out
/// exactly when the named mint's decimals are X's; it then moves exactly
/// `withdraw` from the vault to the user.
pub proof fn lemma_swap_payout_decimals(s: Swap, is_x: bool, curve: SwapResult, l: Ledger)
    requires
        ({
            let mint_named = if is_x { s.mint_x.key } else { s.mint_y.key };
            let vault_out = if is_x { s.vault_y.key } else { s.vault_x.key };
            let user_out = if is_x { s.user_token_y.key } else { s.user_token_x.key };
            &&& token_account(l, vault_out, mint_named, s.pool_account.key)
            &&& (l.is_token_account)(user_out)
            &&& (l.mint_of)(user_out) == mint_named
            &&& vault_out != user_out
            &&& (l.tokens)(vault_out) >= curve.withdraw
            &&& (l.tokens)(user_out) + curve.withdraw <= u64::MAX
        }),
    ensures
        ({
            let mint_named = if is_x { s.mint_x.key } else { s.mint_y.key };
            let vault_out = if is_x { s.vault_y.key } else { s.vault_x.key };
            let user_out = if is_x { s.user_token_y.key } else { s.user_token_x.key };
            &&& apply_action(l, s.swap_plan(is_x, curve)[1]) is Some <==> (l.decimals)(mint_named)
                == s.mint_x.decimals
            &&& apply_action(l, s.swap_plan(is_x, curve)[1]) matches Some(r) ==> (r.tokens)(vault_out) == (
            l.tokens)(vault_out) - curve.withdraw && (r.tokens)(user_out) == (l.tokens)(user_out) + curve.withdraw
        }),
{
}

} // verus!
