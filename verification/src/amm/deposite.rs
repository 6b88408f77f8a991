//! Providing liquidity.
use vstd::prelude::*;

use crate::amm::{CurveAmountsRequest, LPErrors, Pool, XYAmounts};
use crate::ledger::{
    and_then, apply_action, apply_actions, carry_out, consistent, lemma_apply_pair, lemma_apply_triple, refuses, steps_of,
    token_account, Account, Ledger, Mint, Pubkey,
    Signer, Step, TokenAccount, TokenAction,
};

verus! {

/// Accounts of a liquidity deposit.
#[derive(Clone, Copy, Debug)]
pub struct DepositePair {
    pub user: Pubkey,
    pub mint_x: Mint,
    pub mint_y: Mint,
    pub user_token_x: TokenAccount,
    pub user_token_y: TokenAccount,
    pub pool_account: Account<Pool>,
    pub token_vault_x: TokenAccount,
    pub token_vault_y: TokenAccount,
    pub lp_mint: Mint,
    pub user_lp_account: TokenAccount,
}

impl DepositePair {
    /// No LP token and no reserve yet: the first deposit sets the ratio.
    pub open spec fn first_deposit(&self) -> bool {
        self.lp_mint.supply == 0 && self.token_vault_x.amount == 0 && self.token_vault_y.amount == 0
    }

    /// The transfer of one side of the pair from the user to its vault.
    pub open spec fn deposite_token_action(&self, is_x: bool, amount: u64) -> TokenAction {
        if is_x {
            TokenAction::TransferChecked {
                from: self.user_token_x.key,
                to: self.token_vault_x.key,
                mint: self.mint_x.key,
                authority: self.user,
                amount,
                decimals: self.mint_x.decimals,
            }
        } else {
            TokenAction::TransferChecked {
                from: self.user_token_y.key,
                to: self.token_vault_y.key,
                mint: self.mint_y.key,
                authority: self.user,
                amount,
                decimals: self.mint_y.decimals,
            }
        }
    }

    /// The LP tokens minted by the pool to the user.
    pub open spec fn mint_lp_action(&self, amount: u64) -> TokenAction {
        TokenAction::MintTo {
            mint: self.lp_mint.key,
            to: self.user,
            authority: self.pool_account.key,
            amount,
        }
    }

    /// What `deposite` answers, given the curve's amounts where it needs them.
    pub open spec fn deposite_result(
        &self,
        lp_amount: u64,
        max_token_x: u64,
        max_token_y: u64,
        curve: Option<XYAmounts>,
    ) -> Result<Seq<TokenAction>, LPErrors> {
        let (amount_x, amount_y) = if self.first_deposit() {
            (max_token_x, max_token_y)
        } else {
            (curve.unwrap().x, curve.unwrap().y)
        };
        if amount_x <= max_token_x && amount_y <= max_token_y {
            Ok(
                seq![
                    self.deposite_token_action(true, amount_x),
                    self.deposite_token_action(false, amount_y),
                    self.mint_lp_action(lp_amount),
                ],
            )
        } else {
            Err(LPErrors::SlippageExceed)
        }
    }

    /// Whether the deposit is the first one (then no curve query is made).
    pub fn is_first_deposit(&self) -> (r: bool)
        ensures
            r == self.first_deposit(),
    {
        self.lp_mint.supply == 0 && self.token_vault_x.amount == 0 && self.token_vault_y.amount == 0
    }

    /// The curve query that a deposit of `lp_amount` LP tokens makes, if any:
    /// none for the first deposit, else `xy_deposit_amounts_from_l` on the
    /// user's maxima, the LP supply, the LP amount and the LP decimals.
    pub fn deposite_request(&self, lp_amount: u64, max_token_x: u64, max_token_y: u64) -> (r: Option<
        CurveAmountsRequest,
    >)
        ensures
            self.first_deposit() ==> r is None,
            !self.first_deposit() ==> r == Some(
                CurveAmountsRequest {
                    x: max_token_x,
                    y: max_token_y,
                    l: self.lp_mint.supply,
                    a: lp_amount,
                    precision: self.lp_mint.decimals as u32,
                },
            ),
    {
        if self.is_first_deposit() {
            None
        } else {
            Some(
                CurveAmountsRequest {
                    x: max_token_x,
                    y: max_token_y,
                    l: self.lp_mint.supply,
                    a: lp_amount,
                    precision: self.lp_mint.decimals as u32,
                },
            )
        }
    }

    /// Deposits a pair of tokens and mints `lp_amount` LP tokens to the user.
    /// The first deposit takes the maxima as they are; a later one takes the
    /// curve's amounts (`curve`, the answer to `deposite_request`). Amounts
    /// above the user's maxima are refused with `SlippageExceed`.
    pub fn deposite(&self, lp_amount: u64, max_token_x: u64, max_token_y: u64, curve: Option<XYAmounts>) -> (r:
        Result<Vec<Step>, LPErrors>)
        requires
            !self.first_deposit() ==> curve is Some,
        ensures
            match (r, self.deposite_result(lp_amount, max_token_x, max_token_y, curve)) {
                (Ok(plan), Ok(expected)) => plan@ == steps_of(
                    expected,
                    seq![
                        Signer::Transaction,
                        Signer::Transaction,
                        Signer::Pool { seed: self.pool_account.data.seed, bump: self.pool_account.data.pool_bump },
                    ],
                    false,
                ),
                (Err(e), Err(expected)) => e == expected,
                _ => false,
            },
    {
        let (amount_x, amount_y) = if self.is_first_deposit() {
            (max_token_x, max_token_y)
        } else {
            match curve {
                Some(amounts) => (amounts.x, amounts.y),
                None => (max_token_x, max_token_y),
            }
        };
        if !(amount_x <= max_token_x && amount_y <= max_token_y) {
            return Err(LPErrors::SlippageExceed);
        }
        let mut plan: Vec<Step> = Vec::new();
        plan.push(self.deposite_token(true, amount_x));
        plan.push(self.deposite_token(false, amount_y));
        plan.push(self.mint_lp(lp_amount));
        assert(plan@ =~= steps_of(
            self.deposite_result(lp_amount, max_token_x, max_token_y, curve)->Ok_0,
            seq![
                Signer::Transaction,
                Signer::Transaction,
                Signer::Pool { seed: self.pool_account.data.seed, bump: self.pool_account.data.pool_bump },
            ],
            false,
        ));
        Ok(plan)
    }

    /// The transfer of `amount` of X (or Y) from the user to the pool's vault.
    pub fn deposite_token(&self, is_x: bool, amount: u64) -> (r: Step)
        ensures
            r == (Step { action: self.deposite_token_action(is_x, amount), signer: Signer::Transaction, ignore_failure: false }),
    {
        let action = {
            if is_x {
                TokenAction::TransferChecked {
                    from: self.user_token_x.key,
                    to: self.token_vault_x.key,
                    mint: self.mint_x.key,
                    authority: self.user,
                    amount,
                    decimals: self.mint_x.decimals,
                }
            } else {
                TokenAction::TransferChecked {
                    from: self.user_token_y.key,
                    to: self.token_vault_y.key,
                    mint: self.mint_y.key,
                    authority: self.user,
                    amount,
                    decimals: self.mint_y.decimals,
                }
            }
        };
        Step { action, signer: Signer::Transaction, ignore_failure: false }
    }

    /// The minting of `amount` LP tokens, signed by the pool, credited to the
    /// user's address.
    pub fn mint_lp(&self, amount: u64) -> (r: Step)
        ensures
            r == (Step { action: self.mint_lp_action(amount), signer: Signer::Pool { seed: self.pool_account.data.seed, bump: self.pool_account.data.pool_bump }, ignore_failure: false }),
    {
        let action = {
            TokenAction::MintTo { mint: self.lp_mint.key, to: self.user, authority: self.pool_account.key, amount }
        };
        Step { action, signer: Signer::Pool { seed: self.pool_account.data.seed, bump: self.pool_account.data.pool_bump }, ignore_failure: false }
    }
}

/// A deposit never takes more than the user's maxima: when the runtime
/// carries it out, the user's X and Y accounts lose at most `max_token_x`
/// and `max_token_y`, exactly what the vaults gain, the user's address gains
/// `lp_amount` LP tokens and the LP supply grows by as much; nothing else
/// moves.
pub proof fn lemma_deposite_within_maxima(
    d: DepositePair,
    lp_amount: u64,
    max_token_x: u64,
    max_token_y: u64,
    curve: Option<XYAmounts>,
    l: Ledger,
)
    requires
        d.deposite_result(lp_amount, max_token_x, max_token_y, curve) is Ok,
        d.user_token_x.key != d.token_vault_x.key,
        d.user_token_y.key != d.token_vault_y.key,
        d.user != d.user_token_x.key,
        d.user != d.user_token_y.key,
        d.user != d.token_vault_x.key,
        d.user != d.token_vault_y.key,
        d.user_token_x.key != d.user_token_y.key,
        d.user_token_x.key != d.token_vault_y.key,
        d.user_token_y.key != d.token_vault_x.key,
        d.token_vault_x.key != d.token_vault_y.key,
    ensures
        apply_actions(l, d.deposite_result(lp_amount, max_token_x, max_token_y, curve)->Ok_0) matches Some(r) ==> {
            let paid_x = (l.tokens)(d.user_token_x.key) - (r.tokens)(d.user_token_x.key);
            let paid_y = (l.tokens)(d.user_token_y.key) - (r.tokens)(d.user_token_y.key);
            &&& 0 <= paid_x <= max_token_x
            &&& 0 <= paid_y <= max_token_y
            &&& (r.tokens)(d.token_vault_x.key) == (l.tokens)(d.token_vault_x.key) + paid_x
            &&& (r.tokens)(d.token_vault_y.key) == (l.tokens)(d.token_vault_y.key) + paid_y
            &&& (r.tokens)(d.user) == (l.tokens)(d.user) + lp_amount
            &&& forall|k: Pubkey|
                k != d.user_token_x.key && k != d.user_token_y.key && k != d.token_vault_x.key && k
                    != d.token_vault_y.key && k != d.user ==> #[trigger] (r.tokens)(k) == (l.tokens)(k)
            &&& (r.supply)(d.lp_mint.key) == (l.supply)(d.lp_mint.key) + lp_amount
            &&& r.lamports == l.lamports
        },
{
    let (amount_x, amount_y) = if d.first_deposit() {
        (max_token_x, max_token_y)
    } else {
        (curve.unwrap().x, curve.unwrap().y)
    };
    lemma_apply_triple(
        l,
        d.deposite_token_action(true, amount_x),
        d.deposite_token_action(false, amount_y),
        d.mint_lp_action(lp_amount),
    );
}

/// The LP tokens are minted to the user's address, so the runtime refuses
/// every deposit whose user is no token account (a wallet).
pub proof fn lemma_deposite_needs_token_account_user(
    d: DepositePair,
    lp_amount: u64,
    max_token_x: u64,
    max_token_y: u64,
    curve: Option<XYAmounts>,
    l: Ledger,
)
    requires
        d.deposite_result(lp_amount, max_token_x, max_token_y, curve) is Ok,
        !(l.is_token_account)(d.user),
    ensures
        apply_actions(l, d.deposite_result(lp_amount, max_token_x, max_token_y, curve)->Ok_0) is None,
{
    let (amount_x, amount_y) = if d.first_deposit() {
        (max_token_x, max_token_y)
    } else {
        (curve.unwrap().x, curve.unwrap().y)
    };
    let a = d.deposite_token_action(true, amount_x);
    let b = d.deposite_token_action(false, amount_y);
    let c = d.mint_lp_action(lp_amount);
    lemma_apply_triple(l, a, b, c);
    if let Some(l2) = and_then(apply_action(l, a), b) {
        assert(l2.is_token_account == l.is_token_account);
        assert(refuses(l2, c));
    }
}

/// The first deposit always goes through and takes the user's maxima as
/// they are: they set the pool's ratio.
pub proof fn lemma_first_deposit_takes_maxima(
    d: DepositePair,
    lp_amount: u64,
    max_token_x: u64,
    max_token_y: u64,
    curve: Option<XYAmounts>,
)
    requires
        d.first_deposit(),
    ensures
        d.deposite_result(lp_amount, max_token_x, max_token_y, curve) == Ok::<Seq<TokenAction>, LPErrors>(
            seq![
                d.deposite_token_action(true, max_token_x),
                d.deposite_token_action(false, max_token_y),
                d.mint_lp_action(lp_amount),
            ],
        ),
{
}

/// A deposit takes exactly what it should, no more: when the runtime
/// carries out an accepted deposit, the user's X and Y accounts lose, and the
/// vaults gain, the maxima for the first deposit and the curve's amounts
/// (`curve`, the answer to `deposite_request`) for any later one.
pub proof fn lemma_deposite_takes_curve_amounts(
    d: DepositePair,
    lp_amount: u64,
    max_token_x: u64,
    max_token_y: u64,
    curve: Option<XYAmounts>,
    l: Ledger,
)
    requires
        d.deposite_result(lp_amount, max_token_x, max_token_y, curve) is Ok,
        d.user_token_x.key != d.token_vault_x.key,
        d.user_token_y.key != d.token_vault_y.key,
        d.user != d.user_token_x.key,
        d.user != d.user_token_y.key,
        d.user != d.token_vault_x.key,
        d.user != d.token_vault_y.key,
        d.user_token_x.key != d.user_token_y.key,
        d.user_token_x.key != d.token_vault_y.key,
        d.user_token_y.key != d.token_vault_x.key,
        d.token_vault_x.key != d.token_vault_y.key,
    ensures
        apply_actions(l, d.deposite_result(lp_amount, max_token_x, max_token_y, curve)->Ok_0) matches Some(r) ==> {
            let take_x: int = if d.first_deposit() { max_token_x as int } else { curve.unwrap().x as int };
            let take_y: int = if d.first_deposit() { max_token_y as int } else { curve.unwrap().y as int };
            &&& (r.tokens)(d.user_token_x.key) == (l.tokens)(d.user_token_x.key) - take_x
            &&& (r.tokens)(d.user_token_y.key) == (l.tokens)(d.user_token_y.key) - take_y
            &&& (r.tokens)(d.token_vault_x.key) == (l.tokens)(d.token_vault_x.key) + take_x
            &&& (r.tokens)(d.token_vault_y.key) == (l.tokens)(d.token_vault_y.key) + take_y
        },
{
    let (amount_x, amount_y) = if d.first_deposit() {
        (max_token_x, max_token_y)
    } else {
        (curve.unwrap().x, curve.unwrap().y)
    };
    lemma_apply_triple(
        l,
        d.deposite_token_action(true, amount_x),
        d.deposite_token_action(false, amount_y),
        d.mint_lp_action(lp_amount),
    );
}

/// The two transfers of an accepted deposit go through whenever the user can
/// pay: each names its own side's mint and that mint's decimals, so with the
/// accounts as the constraints make them (the user's X and Y accounts of
/// mints X and Y, owned by the user; the vaults of the same mints), the
/// mints' decimals as read, a consistent ledger, the user's balances
/// covering the amounts taken and the vaults with room for them, the runtime
/// carries both out, moving exactly those amounts.
pub proof fn lemma_deposite_transfers_go_through(
    d: DepositePair,
    lp_amount: u64,
    max_token_x: u64,
    max_token_y: u64,
    curve: Option<XYAmounts>,
    l: Ledger,
)
    requires
        d.deposite_result(lp_amount, max_token_x, max_token_y, curve) is Ok,
        consistent(l),
        token_account(l, d.user_token_x.key, d.mint_x.key, d.user),
        token_account(l, d.user_token_y.key, d.mint_y.key, d.user),
        (l.is_token_account)(d.token_vault_x.key),
        (l.mint_of)(d.token_vault_x.key) == d.mint_x.key,
        (l.is_token_account)(d.token_vault_y.key),
        (l.mint_of)(d.token_vault_y.key) == d.mint_y.key,
        (l.decimals)(d.mint_x.key) == d.mint_x.decimals,
        (l.decimals)(d.mint_y.key) == d.mint_y.decimals,
        d.user_token_x.key != d.token_vault_x.key,
        d.user_token_y.key != d.token_vault_y.key,
        d.user_token_x.key != d.user_token_y.key,
        d.user_token_x.key != d.token_vault_y.key,
        d.user_token_y.key != d.token_vault_x.key,
        d.token_vault_x.key != d.token_vault_y.key,
        ({
            let take_x: int = if d.first_deposit() { max_token_x as int } else { curve.unwrap().x as int };
            let take_y: int = if d.first_deposit() { max_token_y as int } else { curve.unwrap().y as int };
            &&& (l.tokens)(d.user_token_x.key) >= take_x
            &&& (l.tokens)(d.user_token_y.key) >= take_y
            &&& (l.tokens)(d.token_vault_x.key) + take_x <= u64::MAX
            &&& (l.tokens)(d.token_vault_y.key) + take_y <= u64::MAX
        }),
    ensures
        apply_actions(l, d.deposite_result(lp_amount, max_token_x, max_token_y, curve)->Ok_0.take(2)) matches Some(
            r,
        ) && {
            let take_x: int = if d.first_deposit() { max_token_x as int } else { curve.unwrap().x as int };
            let take_y: int = if d.first_deposit() { max_token_y as int } else { curve.unwrap().y as int };
            &&& (r.tokens)(d.user_token_x.key) == (l.tokens)(d.user_token_x.key) - take_x
            &&& (r.tokens)(d.user_token_y.key) == (l.tokens)(d.user_token_y.key) - take_y
            &&& (r.tokens)(d.token_vault_x.key) == (l.tokens)(d.token_vault_x.key) + take_x
            &&& (r.tokens)(d.token_vault_y.key) == (l.tokens)(d.token_vault_y.key) + take_y
        },
{
    let (amount_x, amount_y) = if d.first_deposit() {
        (max_token_x, max_token_y)
    } else {
        (curve.unwrap().x, curve.unwrap().y)
    };
    let a = d.deposite_token_action(true, amount_x);
    let b = d.deposite_token_action(false, amount_y);
    let plan = d.deposite_result(lp_amount, max_token_x, max_token_y, curve)->Ok_0;
    assert(plan.take(2) =~= seq![a, b]);
    lemma_apply_pair(l, a, b);
    assert(!refuses(l, a));
    let l1 = carry_out(l, a);
    assert(!refuses(l1, b));
}

} // verus!
