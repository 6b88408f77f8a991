//! A SOL transfer made by building the system program's `Transfer`
//! instruction by hand and invoking it.
use vstd::prelude::*;

use crate::ledger::{apply_action, Ledger, Pubkey, TokenAction};

verus! {

/// An account handed to an instruction.
#[derive(Clone, Copy, Debug, PartialEq, Eq)]
pub struct AccountMeta {
    pub pubkey: Pubkey,
    pub is_signer: bool,
    pub is_writable: bool,
}

/// An instruction for another program: its id, its accounts and its data.
#[derive(Clone, Debug, PartialEq, Eq)]
pub struct Instruction {
    pub program_id: Pubkey,
    pub accounts: Vec<AccountMeta>,
    pub data: Vec<u8>,
}

/// Accounts of the transfer.
#[derive(Clone, Copy, Debug)]
pub struct SolTrasfer {
    pub sender: Pubkey,
    pub recipient: Pubkey,
    pub system_program: Pubkey,
}

/// The system program's instruction index for `Transfer`.
pub const TRANSFER_DISCRIMINANT: u32 = 2;

/// 256 to the power `n`.
pub open spec fn pow256(n: nat) -> nat
    decreases n,
{
    if n == 0 {
        1
    } else {
        256 * pow256((n - 1) as nat)
    }
}

/// The `n` low bytes of `v`, least significant first.
pub open spec fn le_bytes(v: nat, n: nat) -> Seq<u8>
    decreases n,
{
    if n == 0 {
        Seq::empty()
    } else {
        seq![(v % 256) as u8] + le_bytes(v / 256, (n - 1) as nat)
    }
}

/// The number that a little-endian byte string stands for.
pub open spec fn le_value(s: Seq<u8>) -> nat
    decreases s.len(),
{
    if s.len() == 0 {
        0
    } else {
        s[0] as nat + 256 * le_value(s.drop_first())
    }
}

/// The data of a system `Transfer` of `lamports`: the instruction index as
/// four little-endian bytes, then the amount as eight.
pub open spec fn transfer_data(lamports: u64) -> Seq<u8> {
    le_bytes(TRANSFER_DISCRIMINANT as nat, 4) + le_bytes(lamports as nat, 8)
}

/// The instruction that `sol_trasfer` invokes.
pub open spec fn transfer_instruction_accounts(ctx: SolTrasfer) -> Seq<AccountMeta> {
    seq![
        AccountMeta { pubkey: ctx.sender, is_signer: true, is_writable: true },
        AccountMeta { pubkey: ctx.recipient, is_signer: false, is_writable: true },
    ]
}

/// What the system program makes of an instruction's accounts and data, as
/// far as its `Transfer` goes: twelve bytes of data whose first four hold
/// the index 2 and whose last eight hold the amount, with a writable signer
/// and a writable account first, ask it to move that amount of lamports from
/// the first to the second. Anything else is no transfer (`None`).
pub open spec fn system_transfer_of(accounts: Seq<AccountMeta>, data: Seq<u8>) -> Option<TokenAction> {
    if data.len() == 12 && le_value(data.subrange(0, 4)) == TRANSFER_DISCRIMINANT && accounts.len() >= 2
        && accounts[0].is_signer && accounts[0].is_writable && accounts[1].is_writable {
        Some(
            TokenAction::SystemTransfer {
                from: accounts[0].pubkey,
                to: accounts[1].pubkey,
                lamports: le_value(data.subrange(4, 12)) as u64,
            },
        )
    } else {
        None
    }
}

/// Appends the `n` low bytes of `v` to `out`, least significant first.
fn push_le_bytes(out: &mut Vec<u8>, v: u64, n: usize)
    requires
        n <= 8,
    ensures
        final(out)@ == old(out)@ + le_bytes(v as nat, n as nat),
{
    let mut rest: u64 = v;
    let mut i: usize = 0;
    while i < n
        invariant
            i <= n,
            n <= 8,
            old(out)@ + le_bytes(v as nat, n as nat) == out@ + le_bytes(rest as nat, (n - i) as nat),
        decreases n - i,
    {
        let byte: u8 = (rest % 256) as u8;
        proof {
            let tail = le_bytes((rest / 256) as nat, (n - i - 1) as nat);
            assert(le_bytes(rest as nat, (n - i) as nat) == seq![byte] + tail);
            assert(out@ + (seq![byte] + tail) =~= out@.push(byte) + tail);
        }
        out.push(byte);
        rest = rest / 256;
        i = i + 1;
    }
    assert(out@ + le_bytes(rest as nat, 0) =~= out@);
}

/// Builds the system program `Transfer` of `amount` lamports from the sender
/// (a writable signer) to the recipient (writable).
pub fn sol_trasfer(ctx: &SolTrasfer, amount: u64) -> (r: Instruction)
    ensures
        r.program_id == ctx.system_program,
        r.accounts@ == transfer_instruction_accounts(*ctx),
        r.data@ == transfer_data(amount),
        system_transfer_of(r.accounts@, r.data@) == Some(
            TokenAction::SystemTransfer { from: ctx.sender, to: ctx.recipient, lamports: amount },
        ),
{
    let mut accounts: Vec<AccountMeta> = Vec::new();
    accounts.push(AccountMeta { pubkey: ctx.sender, is_signer: true, is_writable: true });
    accounts.push(AccountMeta { pubkey: ctx.recipient, is_signer: false, is_writable: true });
    let mut data: Vec<u8> = Vec::new();
    push_le_bytes(&mut data, TRANSFER_DISCRIMINANT as u64, 4);
    push_le_bytes(&mut data, amount, 8);
    assert(data@ =~= transfer_data(amount));
    proof {
        lemma_transfer_data_decodes(amount);
    }
    Instruction { program_id: ctx.system_program, accounts, data }
}

/// Little-endian encoding is undone by decoding: `le_bytes(v, n)` has `n`
/// bytes and stands for `v` whenever `v` fits in them.
pub proof fn lemma_le_bytes_roundtrip(v: nat, n: nat)
    requires
        v < pow256(n),
    ensures
        le_bytes(v, n).len() == n,
        le_value(le_bytes(v, n)) == v,
    decreases n,
{
    if n > 0 {
        let m = (n - 1) as nat;
        assert(v / 256 < pow256(m)) by (nonlinear_arith)
            requires
                v < 256 * pow256(m),
        ;
        lemma_le_bytes_roundtrip(v / 256, m);
        let s = le_bytes(v, n);
        assert(s.drop_first() =~= le_bytes(v / 256, m));
        assert(v == (v % 256) + 256 * (v / 256)) by (nonlinear_arith);
    }
}

/// The transfer's data is twelve bytes: the `Transfer` index 2, then the
/// amount, which decoding the last eight bytes gives back.
pub proof fn lemma_transfer_data_decodes(lamports: u64)
    ensures
        transfer_data(lamports).len() == 12,
        le_value(transfer_data(lamports).subrange(0, 4)) == 2,
        le_value(transfer_data(lamports).subrange(4, 12)) == lamports,
{
    reveal_with_fuel(pow256, 9);
    assert(pow256(4) == 0x1_0000_0000);
    assert(pow256(8) == 0x1_0000_0000_0000_0000);
    lemma_le_bytes_roundtrip(2, 4);
    lemma_le_bytes_roundtrip(lamports as nat, 8);
    let d = transfer_data(lamports);
    assert(d.subrange(0, 4) =~= le_bytes(2, 4));
    assert(d.subrange(4, 12) =~= le_bytes(lamports as nat, 8));
}

/// What the transfer does to the ledger: the runtime refuses it exactly
/// when the sender holds fewer than `amount` lamports (or the recipient's
/// would pass `u64::MAX`); otherwise the sender loses `amount` lamports, the
/// recipient gains them, and nothing else changes.
pub proof fn lemma_sol_trasfer_moves_lamports(ctx: SolTrasfer, amount: u64, l: Ledger)
    requires
        ctx.sender != ctx.recipient,
    ensures
        system_transfer_of(transfer_instruction_accounts(ctx), transfer_data(amount)) == Some(
            TokenAction::SystemTransfer { from: ctx.sender, to: ctx.recipient, lamports: amount },
        ),
        apply_action(l, TokenAction::SystemTransfer { from: ctx.sender, to: ctx.recipient, lamports: amount })
            is None <==> (l.lamports)(ctx.sender) < amount || (l.lamports)(ctx.recipient) + amount > u64::MAX,
        apply_action(l, TokenAction::SystemTransfer { from: ctx.sender, to: ctx.recipient, lamports: amount })
            matches Some(r) ==> {
            &&& (r.lamports)(ctx.sender) == (l.lamports)(ctx.sender) - amount
            &&& (r.lamports)(ctx.recipient) == (l.lamports)(ctx.recipient) + amount
            &&& forall|k: Pubkey|
                k != ctx.sender && k != ctx.recipient ==> #[trigger] (r.lamports)(k) == (l.lamports)(k)
            &&& r.tokens == l.tokens
        },
{
    lemma_transfer_data_decodes(amount);
}

} // verus!
