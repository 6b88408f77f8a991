//! A calculator account holding one unsigned 32-bit number.
use vstd::prelude::*;

use crate::ledger::Pubkey;

verus! {

/// The calculator's state account.
#[derive(Clone, Copy, Debug, PartialEq, Eq)]
pub struct Data {
    pub num: u32,
}

/// Accounts of `init`: the new data account and its payer.
#[derive(Clone, Copy, Debug)]
pub struct Initialize {
    pub account: Data,
    pub signer: Pubkey,
}

/// Accounts of `add`.
#[derive(Clone, Copy, Debug)]
pub struct Add {
    pub account: Data,
    pub signer: Pubkey,
}

/// Accounts of `double`.
#[derive(Clone, Copy, Debug)]
pub struct Double {
    pub account: Data,
    pub signer: Pubkey,
}

/// Accounts of `subtract`.
#[derive(Clone, Copy, Debug)]
pub struct Subtract {
    pub account: Data,
    pub signer: Pubkey,
}

/// The number after adding `number`.
pub open spec fn added(num: u32, number: u32) -> int {
    num + number
}

/// The number after doubling.
pub open spec fn doubled(num: u32) -> int {
    num * 2
}

/// The number after subtracting `number`.
pub open spec fn subtracted(num: u32, number: u32) -> int {
    num - number
}

/// Sets the number to `initval`.
pub fn init(ctx: &mut Initialize, initval: u32)
    ensures
        final(ctx).account.num == initval,
        final(ctx).signer == old(ctx).signer,
{
    ctx.account.num = initval;
}

/// Adds `number`; the sum must fit in 32 bits (the program's arithmetic is
/// checked and aborts on overflow).
pub fn add(ctx: &mut Add, number: u32)
    requires
        added(old(ctx).account.num, number) <= u32::MAX,
    ensures
        final(ctx).account.num == added(old(ctx).account.num, number),
        final(ctx).signer == old(ctx).signer,
{
    ctx.account.num = ctx.account.num + number;
}

/// Doubles the number; the result must fit in 32 bits.
pub fn double(ctx: &mut Double)
    requires
        doubled(old(ctx).account.num) <= u32::MAX,
    ensures
        final(ctx).account.num == doubled(old(ctx).account.num),
        final(ctx).signer == old(ctx).signer,
{
    ctx.account.num = ctx.account.num * 2;
}

/// Subtracts `number`; it must not exceed the number held.
pub fn subtract(ctx: &mut Subtract, number: u32)
    requires
        subtracted(old(ctx).account.num, number) >= 0,
    ensures
        final(ctx).account.num == subtracted(old(ctx).account.num, number),
        final(ctx).signer == old(ctx).signer,
{
    ctx.account.num = ctx.account.num - number;
}

/// Subtracting what was added gives back the number.
pub proof fn lemma_subtract_undoes_add(num: u32, number: u32)
    requires
        added(num, number) <= u32::MAX,
    ensures
        subtracted(added(num, number) as u32, number) == num,
{
}

/// Doubling is adding the number to itself.
pub proof fn lemma_double_is_self_add(num: u32)
    ensures
        doubled(num) == added(num, num),
{
}

} // verus!
