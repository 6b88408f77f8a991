//! A constant-product liquidity pool of two tokens X and Y, with an LP mint.
//!
//! The curve arithmetic (deposit ratios, swap amounts) is computed outside
//! the library: each instruction first states the exact curve query it needs
//! (`*_request`), then takes the curve's answer and decides the rest.
use vstd::prelude::*;

use crate::ledger::Pubkey;

pub mod deposite;
pub mod initialize;
pub mod swap;
pub mod update;
pub mod withdraw;

verus! {

/// Errors of the pool program.
#[derive(Clone, Copy, Debug, PartialEq, Eq, Structural)]
pub enum LPErrors {
    PoolLocked,
    AMMError,
    SlippageExceed,
    ZeroBalance,
    InvalidAdmin,
    NoAdmin,
}

/// The pool's state account.
#[derive(Clone, Copy, Debug, PartialEq, Eq)]
pub struct Pool {
    /// Seed that lets one initializer create several pools.
    pub seed: u64,
    /// The admin allowed to lock and unlock the pool, if any.
    pub authority: Option<Pubkey>,
    pub mint_x: Pubkey,
    pub mint_y: Pubkey,
    /// Swap fee in basis points.
    pub fee: u16,
    /// A locked pool refuses swaps.
    pub locked: bool,
    pub pool_bump: u8,
    pub lp_mint_bump: u8,
}

/// Token amounts of X and Y, as the curve reports them.
#[derive(Clone, Copy, Debug, PartialEq, Eq)]
pub struct XYAmounts {
    pub x: u64,
    pub y: u64,
}

/// The curve's answer to a swap: what the user pays in and what the pool
/// pays out.
#[derive(Clone, Copy, Debug, PartialEq, Eq)]
pub struct SwapResult {
    pub deposit: u64,
    pub withdraw: u64,
    pub fee: u64,
}

/// The arguments of the curve's `xy_deposit_amounts_from_l` or
/// `xy_withdraw_amounts_from_l`, in their order.
#[derive(Clone, Copy, Debug, PartialEq, Eq)]
pub struct CurveAmountsRequest {
    pub x: u64,
    pub y: u64,
    pub l: u64,
    pub a: u64,
    pub precision: u32,
}

/// The arguments of the curve's `init` (reserves, LP supply, fee) and of its
/// `swap` (side, amount, minimum out).
#[derive(Clone, Copy, Debug, PartialEq, Eq)]
pub struct CurveSwapRequest {
    pub x: u64,
    pub y: u64,
    pub l: u64,
    pub fee: u16,
    pub is_x: bool,
    pub amount: u64,
    pub min: u64,
}

} // verus!
