use vstd::prelude::*;

verus! {

broadcast use vstd::array::group_array_axioms;

/// A 32-byte account address.
#[derive(Clone, Copy, Debug, PartialEq, Eq)]
pub struct Pubkey {
    pub bytes: [u8; 32],
}

impl Pubkey {
    /// Compares two addresses byte by byte.
    pub fn equals(&self, other: &Pubkey) -> (r: bool)
        ensures
            r == (*self == *other),
    {
        let mut i: usize = 0;
        while i < 32
            invariant
                i <= 32,
                forall|j: int| 0 <= j < i ==> self.bytes@[j] == other.bytes@[j],
            decreases 32 - i,
        {
            if self.bytes[i] != other.bytes[i] {
                return false;
            }
            i = i + 1;
        }
        assert(self.bytes =~= other.bytes);
        true
    }
}


/// What an instruction reads of an SPL mint.
#[derive(Clone, Copy, Debug, PartialEq, Eq)]
pub struct Mint {
    pub key: Pubkey,
    pub decimals: u8,
    pub supply: u64,
}

/// What an instruction reads of an SPL token account.
#[derive(Clone, Copy, Debug, PartialEq, Eq)]
pub struct TokenAccount {
    pub key: Pubkey,
    pub amount: u64,
}

/// A program-owned account: its address and its decoded data.
#[derive(Clone, Copy, Debug, PartialEq, Eq)]
pub struct Account<T> {
    pub key: Pubkey,
    pub data: T,
}

/// One movement of tokens or lamports that an instruction asks the runtime
/// to make by cross-program invocation, or, for the closing of one of the
/// program's own accounts, that the program makes when the instruction ends.
#[derive(Clone, Copy, Debug, PartialEq, Eq)]
pub enum TokenAction {
    /// SPL `transfer_checked`: `amount` tokens of `mint` from `from` to `to`.
    TransferChecked {
        from: Pubkey,
        to: Pubkey,
        mint: Pubkey,
        authority: Pubkey,
        amount: u64,
        decimals: u8,
    },
    /// SPL `transfer` (no mint check).
    Transfer { from: Pubkey, to: Pubkey, authority: Pubkey, amount: u64 },
    /// SPL `mint_to`: `amount` new tokens of `mint` credited to `to`.
    MintTo { mint: Pubkey, to: Pubkey, authority: Pubkey, amount: u64 },
    /// SPL `burn`: `amount` tokens of `mint` destroyed from `from`.
    Burn { mint: Pubkey, from: Pubkey, authority: Pubkey, amount: u64 },
    /// SPL `close_account`: the token account's lamports go to `destination`.
    CloseAccount { account: Pubkey, destination: Pubkey, authority: Pubkey },
    /// System program `transfer` of `lamports` from `from` to `to`.
    SystemTransfer { from: Pubkey, to: Pubkey, lamports: u64 },
    /// The closing of an account of the program's own: all its lamports go
    /// to `destination` and it stops being the program's account.
    CloseProgramAccount { account: Pubkey, destination: Pubkey },
}

/// Who signs an action for the program: nobody but the transaction's own
/// signers, or one of the program's derived addresses, given by the values
/// that its seeds are made of.
#[derive(Clone, Copy, Debug, PartialEq, Eq)]
pub enum Signer {
    /// Only the transaction's signers; the program adds no signature.
    Transaction,
    /// The pool's address: pool prefix, the pool's seed, its bump.
    Pool { seed: u64, bump: u8 },
    /// An escrow's address: `escrow`, its owner, its seed, its bump.
    Escrow { owner: Pubkey, seed: u64, bump: u8 },
    /// A listing's address: listing prefix, the marketplace, the NFT's mint,
    /// then the bump when there is one.
    Listing { marketplace: Pubkey, mint: Pubkey, bump: Option<u8> },
    /// The staking configuration's address: `config`, its bump.
    Config { bump: u8 },
    /// A vault's address: `vault`, the vault's state, its bump.
    Vault { state: Pubkey, bump: u8 },
}

/// One step of an instruction: the action, who signs it for the program,
/// and whether the program's own code discards the error of a refusal and
/// goes on (`ignore_failure`) rather than passing it up. The runtime aborts
/// the transaction at a refused step either way (`apply_steps`); the flag
/// decides the program's own answer (`program_answer`).
#[derive(Clone, Copy, Debug, PartialEq, Eq)]
pub struct Step {
    pub action: TokenAction,
    pub signer: Signer,
    pub ignore_failure: bool,
}

/// The actions of a list of steps, in order.
pub open spec fn actions_of(steps: Seq<Step>) -> Seq<TokenAction> {
    steps.map_values(|st: Step| st.action)
}

/// Steps that pair each action with its signer, all with the same failure
/// handling.
pub open spec fn steps_of(actions: Seq<TokenAction>, signers: Seq<Signer>, ignore_failure: bool) -> Seq<Step> {
    Seq::new(actions.len(), |i: int| Step { action: actions[i], signer: signers[i], ignore_failure })
}

/// What the token program and the system program hold, as far as the
/// actions read or change it: the token balance, mint, owner and kind of
/// every address, the supply, decimals and mint authority of every mint,
/// every address's lamports, which addresses are accounts of the program's
/// own, and who can sign: the transaction's signers, and the address (if
/// any) that each set of seeds derives for the program.
pub ghost struct Ledger {
    pub tokens: spec_fn(Pubkey) -> int,
    pub lamports: spec_fn(Pubkey) -> int,
    pub is_token_account: spec_fn(Pubkey) -> bool,
    pub is_program_account: spec_fn(Pubkey) -> bool,
    pub tx_signers: spec_fn(Pubkey) -> bool,
    pub derived: spec_fn(Signer) -> Option<Pubkey>,
    pub mint_of: spec_fn(Pubkey) -> Pubkey,
    pub owner_of: spec_fn(Pubkey) -> Pubkey,
    pub supply: spec_fn(Pubkey) -> int,
    pub decimals: spec_fn(Pubkey) -> int,
    pub mint_authority: spec_fn(Pubkey) -> Pubkey,
}

/// Moves `amount` from `from` to `to` in a balance function.
pub open spec fn move_balance(b: spec_fn(Pubkey) -> int, from: Pubkey, to: Pubkey, amount: int) -> spec_fn(
    Pubkey,
) -> int {
    |k: Pubkey|
        if k == from && k == to {
            b(k)
        } else if k == from {
            b(k) - amount
        } else if k == to {
            b(k) + amount
        } else {
            b(k)
        }
}

/// Adds `amount` (possibly negative) to the balance of `at`.
pub open spec fn credit(b: spec_fn(Pubkey) -> int, at: Pubkey, amount: int) -> spec_fn(Pubkey) -> int {
    |k: Pubkey|
        if k == at {
            b(k) + amount
        } else {
            b(k)
        }
}

/// A token transfer of `amount` from `from` to `to` is refused: when either
/// is no token account, when `from` holds another mint than `to`, when
/// `authority` does not own `from`, when `from` holds less than `amount`, or
/// when `to`'s balance would pass `u64::MAX`.
pub open spec fn transfer_refused(l: Ledger, from: Pubkey, to: Pubkey, authority: Pubkey, amount: int) -> bool {
    ||| !(l.is_token_account)(from)
    ||| !(l.is_token_account)(to)
    ||| (l.mint_of)(from) != (l.mint_of)(to)
    ||| (l.owner_of)(from) != authority
    ||| (l.tokens)(from) < amount
    ||| (from != to && (l.tokens)(to) + amount > u64::MAX)
}

/// Whether the runtime refuses an action on this ledger.
pub open spec fn refuses(l: Ledger, a: TokenAction) -> bool {
    match a {
        TokenAction::TransferChecked { from, to, mint, authority, amount, decimals } => {
            ||| transfer_refused(l, from, to, authority, amount as int)
            ||| (l.mint_of)(from) != mint
            ||| (l.decimals)(mint) != decimals
        },
        TokenAction::Transfer { from, to, authority, amount } => transfer_refused(l, from, to, authority, amount as int),
        TokenAction::MintTo { mint, to, authority, amount } => {
            ||| !(l.is_token_account)(to)
            ||| (l.mint_of)(to) != mint
            ||| (l.mint_authority)(mint) != authority
            ||| (l.supply)(mint) + amount > u64::MAX
            ||| (l.tokens)(to) + amount > u64::MAX
        },
        TokenAction::Burn { mint, from, authority, amount } => {
            ||| !(l.is_token_account)(from)
            ||| (l.mint_of)(from) != mint
            ||| (l.owner_of)(from) != authority
            ||| (l.tokens)(from) < amount
            ||| (l.supply)(mint) < amount
        },
        TokenAction::CloseAccount { account, destination, authority } => {
            ||| !(l.is_token_account)(account)
            ||| (l.owner_of)(account) != authority
            ||| (l.tokens)(account) != 0
            ||| account == destination
            ||| (l.lamports)(destination) + (l.lamports)(account) > u64::MAX
        },
        TokenAction::SystemTransfer { from, to, lamports } => {
            ||| (l.lamports)(from) < lamports
            ||| (from != to && (l.lamports)(to) + lamports > u64::MAX)
        },
        TokenAction::CloseProgramAccount { account, destination } => {
            ||| !(l.is_program_account)(account)
            ||| account == destination
            ||| (l.lamports)(destination) + (l.lamports)(account) > u64::MAX
        },
    }
}

/// The ledger after an action that the runtime accepts.
pub open spec fn carry_out(l: Ledger, a: TokenAction) -> Ledger {
    match a {
        TokenAction::TransferChecked { from, to, amount, .. } => Ledger {
            tokens: move_balance(l.tokens, from, to, amount as int),
            ..l
        },
        TokenAction::Transfer { from, to, amount, .. } => Ledger {
            tokens: move_balance(l.tokens, from, to, amount as int),
            ..l
        },
        TokenAction::MintTo { mint, to, amount, .. } => Ledger {
            tokens: credit(l.tokens, to, amount as int),
            supply: credit(l.supply, mint, amount as int),
            ..l
        },
        TokenAction::Burn { mint, from, amount, .. } => Ledger {
            tokens: credit(l.tokens, from, -(amount as int)),
            supply: credit(l.supply, mint, -(amount as int)),
            ..l
        },
        TokenAction::CloseAccount { account, destination, .. } => Ledger {
            lamports: move_balance(l.lamports, account, destination, (l.lamports)(account)),
            is_token_account: |k: Pubkey| k != account && (l.is_token_account)(k),
            ..l
        },
        TokenAction::SystemTransfer { from, to, lamports } => Ledger {
            lamports: move_balance(l.lamports, from, to, lamports as int),
            ..l
        },
        TokenAction::CloseProgramAccount { account, destination } => Ledger {
            lamports: move_balance(l.lamports, account, destination, (l.lamports)(account)),
            is_program_account: |k: Pubkey| k != account && (l.is_program_account)(k),
            ..l
        },
    }
}

/// The outcome of one action: `None` when the runtime refuses it, else the
/// ledger after it.
pub open spec fn apply_action(l: Ledger, a: TokenAction) -> Option<Ledger> {
    if refuses(l, a) {
        None
    } else {
        Some(carry_out(l, a))
    }
}

/// An action after an outcome: a refusal stays a refusal.
pub open spec fn and_then(o: Option<Ledger>, a: TokenAction) -> Option<Ledger> {
    match o {
        Some(l) => apply_action(l, a),
        None => None,
    }
}

/// The outcome of a list of actions carried out in order within one
/// transaction, their signatures taken as given (`apply_steps` checks them):
/// `None` as soon as one is refused, in which case the runtime reverts the
/// transaction and no balance changes.
pub open spec fn apply_actions(l: Ledger, actions: Seq<TokenAction>) -> Option<Ledger>
    decreases actions.len(),
{
    if actions.len() == 0 {
        Some(l)
    } else {
        match apply_action(l, actions[0]) {
            Some(l1) => apply_actions(l1, actions.drop_first()),
            None => None,
        }
    }
}

/// Carrying out two lists of actions one after the other is carrying out
/// their concatenation.
pub proof fn lemma_apply_concat(l: Ledger, first: Seq<TokenAction>, then: Seq<TokenAction>)
    ensures
        apply_actions(l, first + then) == match apply_actions(l, first) {
            Some(l1) => apply_actions(l1, then),
            None => None,
        },
    decreases first.len(),
{
    if first.len() == 0 {
        assert(first + then =~= then);
    } else {
        assert((first + then).drop_first() =~= first.drop_first() + then);
        match apply_action(l, first[0]) {
            Some(l1) => lemma_apply_concat(l1, first.drop_first(), then),
            None => {},
        }
    }
}

/// A list of one action has that action's outcome.
pub proof fn lemma_apply_single(l: Ledger, a: TokenAction)
    ensures
        apply_actions(l, seq![a]) == apply_action(l, a),
{
    assert(seq![a].drop_first() =~= Seq::<TokenAction>::empty());
    if let Some(l1) = apply_action(l, a) {
        assert(apply_actions(l1, Seq::<TokenAction>::empty()) == Some(l1));
    }
}

/// A list of two actions has their outcomes in order.
pub proof fn lemma_apply_pair(l: Ledger, a: TokenAction, b: TokenAction)
    ensures
        apply_actions(l, seq![a, b]) == and_then(apply_action(l, a), b),
{
    assert(seq![a, b] =~= seq![a] + seq![b]);
    lemma_apply_concat(l, seq![a], seq![b]);
    lemma_apply_single(l, a);
    match apply_action(l, a) {
        Some(l1) => lemma_apply_single(l1, b),
        None => {},
    }
}

/// A list of three actions has their outcomes in order.
pub proof fn lemma_apply_triple(l: Ledger, a: TokenAction, b: TokenAction, c: TokenAction)
    ensures
        apply_actions(l, seq![a, b, c]) == and_then(and_then(apply_action(l, a), b), c),
{
    assert(seq![a, b, c] =~= seq![a, b] + seq![c]);
    lemma_apply_concat(l, seq![a, b], seq![c]);
    lemma_apply_pair(l, a, b);
    match and_then(apply_action(l, a), b) {
        Some(l2) => lemma_apply_single(l2, c),
        None => {},
    }
}

/// A list of four actions has their outcomes in order.
pub proof fn lemma_apply_quad(l: Ledger, a: TokenAction, b: TokenAction, c: TokenAction, d: TokenAction)
    ensures
        apply_actions(l, seq![a, b, c, d]) == and_then(and_then(and_then(apply_action(l, a), b), c), d),
{
    assert(seq![a, b, c, d] =~= seq![a, b, c] + seq![d]);
    lemma_apply_concat(l, seq![a, b, c], seq![d]);
    lemma_apply_triple(l, a, b, c);
    match and_then(and_then(apply_action(l, a), b), c) {
        Some(l3) => lemma_apply_single(l3, d),
        None => {},
    }
}

/// `key` is a token account of `mint` owned by `owner`, as an account's
/// token constraints check.
pub open spec fn token_account(l: Ledger, key: Pubkey, mint: Pubkey, owner: Pubkey) -> bool {
    &&& (l.is_token_account)(key)
    &&& (l.mint_of)(key) == mint
    &&& (l.owner_of)(key) == owner
}

/// Every balance, lamport count and supply lies in `0..=u64::MAX`, as the
/// runtime stores them in `u64`s.
pub open spec fn consistent(l: Ledger) -> bool {
    &&& forall|k: Pubkey| 0 <= #[trigger] (l.tokens)(k) <= u64::MAX
    &&& forall|k: Pubkey| 0 <= #[trigger] (l.lamports)(k) <= u64::MAX
    &&& forall|k: Pubkey| 0 <= #[trigger] (l.supply)(k) <= u64::MAX
}

/// Every action that the runtime accepts keeps the ledger consistent.
pub proof fn lemma_action_keeps_consistent(l: Ledger, a: TokenAction)
    requires
        consistent(l),
    ensures
        apply_action(l, a) matches Some(r) ==> consistent(r),
{
    if let Some(r) = apply_action(l, a) {
        let (x, y): (Pubkey, Pubkey) = match a {
            TokenAction::TransferChecked { from, to, .. } => (from, to),
            TokenAction::Transfer { from, to, .. } => (from, to),
            TokenAction::MintTo { mint, to, .. } => (mint, to),
            TokenAction::Burn { mint, from, .. } => (mint, from),
            TokenAction::CloseAccount { account, destination, .. } => (account, destination),
            TokenAction::SystemTransfer { from, to, .. } => (from, to),
            TokenAction::CloseProgramAccount { account, destination } => (account, destination),
        };
        assert(0 <= (l.tokens)(x) <= u64::MAX && 0 <= (l.tokens)(y) <= u64::MAX);
        assert(0 <= (l.lamports)(x) <= u64::MAX && 0 <= (l.lamports)(y) <= u64::MAX);
        assert(0 <= (l.supply)(x) <= u64::MAX && 0 <= (l.supply)(y) <= u64::MAX);
        assert forall|k: Pubkey| 0 <= #[trigger] (r.tokens)(k) <= u64::MAX by {
            assert(0 <= (l.tokens)(k) <= u64::MAX);
        }
        assert forall|k: Pubkey| 0 <= #[trigger] (r.lamports)(k) <= u64::MAX by {
            assert(0 <= (l.lamports)(k) <= u64::MAX);
        }
        assert forall|k: Pubkey| 0 <= #[trigger] (r.supply)(k) <= u64::MAX by {
            assert(0 <= (l.supply)(k) <= u64::MAX);
        }
    }
}

/// Every list of actions that the runtime accepts keeps the ledger
/// consistent.
pub proof fn lemma_actions_keep_consistent(l: Ledger, actions: Seq<TokenAction>)
    requires
        consistent(l),
    ensures
        apply_actions(l, actions) matches Some(r) ==> consistent(r),
    decreases actions.len(),
{
    if actions.len() > 0 {
        lemma_action_keeps_consistent(l, actions[0]);
        if let Some(l1) = apply_action(l, actions[0]) {
            lemma_actions_keep_consistent(l1, actions.drop_first());
        }
    }
}

/// The address whose signature an action needs: the token authority, the
/// payer of a lamport transfer; none for the closing of the program's own
/// account.
pub open spec fn authority_of(a: TokenAction) -> Option<Pubkey> {
    match a {
        TokenAction::TransferChecked { authority, .. } => Some(authority),
        TokenAction::Transfer { authority, .. } => Some(authority),
        TokenAction::MintTo { authority, .. } => Some(authority),
        TokenAction::Burn { authority, .. } => Some(authority),
        TokenAction::CloseAccount { authority, .. } => Some(authority),
        TokenAction::SystemTransfer { from, .. } => Some(from),
        TokenAction::CloseProgramAccount { .. } => None,
    }
}

/// The address that a signer's seeds derive for the program; none when the
/// program adds no seeds.
pub open spec fn derived_by(l: Ledger, signer: Signer) -> Option<Pubkey> {
    match signer {
        Signer::Transaction => None,
        _ => (l.derived)(signer),
    }
}

/// A step is signed when the address it needs signed the transaction, or is
/// the address that the step's seeds derive for the program.
pub open spec fn signed(l: Ledger, st: Step) -> bool {
    match authority_of(st.action) {
        Some(a) => (l.tx_signers)(a) || derived_by(l, st.signer) == Some(a),
        None => true,
    }
}

/// The runtime's answer to one step: refused when it lacks its signature or
/// the action is refused.
pub open spec fn apply_step(l: Ledger, st: Step) -> Option<Ledger> {
    if signed(l, st) {
        apply_action(l, st.action)
    } else {
        None
    }
}

/// The outcome of an instruction's steps within one transaction: a refused
/// step, whatever the program makes of the error handed back to it, aborts
/// the transaction (`None`), and no balance changes.
pub open spec fn apply_steps(l: Ledger, steps: Seq<Step>) -> Option<Ledger>
    decreases steps.len(),
{
    if steps.len() == 0 {
        Some(l)
    } else {
        match apply_step(l, steps[0]) {
            Some(l1) => apply_steps(l1, steps.drop_first()),
            None => None,
        }
    }
}

/// Whether every step carries its signature.
pub open spec fn all_signed(l: Ledger, steps: Seq<Step>) -> bool {
    forall|i: int| 0 <= i < steps.len() ==> signed(l, #[trigger] steps[i])
}

/// Signatures do not depend on balances: the steps go through exactly when
/// every one is signed and their actions go through.
pub proof fn lemma_apply_steps(l: Ledger, steps: Seq<Step>)
    ensures
        apply_steps(l, steps) == if all_signed(l, steps) {
            apply_actions(l, actions_of(steps))
        } else {
            None
        },
    decreases steps.len(),
{
    if steps.len() > 0 {
        let rest = steps.drop_first();
        assert(actions_of(steps).drop_first() =~= actions_of(rest));
        assert(all_signed(l, steps) <==> signed(l, steps[0]) && all_signed(l, rest)) by {
            if signed(l, steps[0]) && all_signed(l, rest) {
                assert forall|i: int| 0 <= i < steps.len() implies signed(l, #[trigger] steps[i]) by {
                    if i > 0 {
                        assert(steps[i] == rest[i - 1]);
                    }
                }
            }
            if all_signed(l, steps) {
                assert(signed(l, steps[0]));
                assert forall|i: int| 0 <= i < rest.len() implies signed(l, #[trigger] rest[i]) by {
                    assert(rest[i] == steps[i + 1]);
                }
            }
        }
        if let Some(l1) = apply_action(l, steps[0].action) {
            lemma_apply_steps(l1, rest);
            assert(l1.tx_signers == l.tx_signers && l1.derived == l.derived);
            assert(all_signed(l1, rest) == all_signed(l, rest));
        }
    }
}

/// What the program's own code answers when each refused step's error is
/// handed back to it: it goes on as if nothing happened after a step whose
/// failure it ignores, and ends with an error at a refused step whose
/// failure it passes up. The runtime still aborts the transaction at any
/// refused step (`apply_steps`): this is the answer the program's code
/// gives, not the ledger's outcome.
pub open spec fn program_answer(l: Ledger, steps: Seq<Step>) -> Result<Ledger, ()>
    decreases steps.len(),
{
    if steps.len() == 0 {
        Ok(l)
    } else {
        match apply_step(l, steps[0]) {
            Some(l1) => program_answer(l1, steps.drop_first()),
            None => if steps[0].ignore_failure {
                program_answer(l, steps.drop_first())
            } else {
                Err(())
            },
        }
    }
}

/// When every step goes through, the program answers success with the
/// ledger that the runtime leaves: ignoring failures changes nothing then.
pub proof fn lemma_program_answer_when_carried_out(l: Ledger, steps: Seq<Step>)
    ensures
        apply_steps(l, steps) matches Some(r) ==> program_answer(l, steps) == Ok::<Ledger, ()>(r),
    decreases steps.len(),
{
    if steps.len() > 0 {
        if let Some(l1) = apply_step(l, steps[0]) {
            lemma_program_answer_when_carried_out(l1, steps.drop_first());
        }
    }
}

/// One step alone: the runtime's answer to it, and the program's.
pub proof fn lemma_steps_single(l: Ledger, st: Step)
    ensures
        apply_steps(l, seq![st]) == apply_step(l, st),
        program_answer(l, seq![st]) == match apply_step(l, st) {
            Some(r) => Ok::<Ledger, ()>(r),
            None => if st.ignore_failure {
                Ok::<Ledger, ()>(l)
            } else {
                Err(())
            },
        },
{
    let e = Seq::<Step>::empty();
    assert(seq![st].drop_first() =~= e);
    assert(apply_steps(l, e) == Some(l));
    assert(program_answer(l, e) == Ok::<Ledger, ()>(l));
    if let Some(r) = apply_step(l, st) {
        assert(apply_steps(r, e) == Some(r));
        assert(program_answer(r, e) == Ok::<Ledger, ()>(r));
    }
}

/// Two steps in order.
pub proof fn lemma_steps_pair(l: Ledger, a: Step, b: Step)
    ensures
        apply_steps(l, seq![a, b]) == match apply_step(l, a) {
            Some(l1) => apply_step(l1, b),
            None => None,
        },
{
    assert(seq![a, b].drop_first() =~= seq![b]);
    if let Some(l1) = apply_step(l, a) {
        lemma_steps_single(l1, b);
    }
}

/// The actions of steps built from actions are those actions.
pub proof fn lemma_actions_of_steps_of(actions: Seq<TokenAction>, signers: Seq<Signer>, ignore_failure: bool)
    requires
        actions.len() == signers.len(),
    ensures
        actions_of(steps_of(actions, signers, ignore_failure)) == actions,
{
    assert(actions_of(steps_of(actions, signers, ignore_failure)) =~= actions);
}

/// A list of actions that the runtime accepts changes no signature: the
/// transaction's signers and the seeds' addresses stay as they were.
pub proof fn lemma_actions_keep_signatures(l: Ledger, actions: Seq<TokenAction>)
    ensures
        apply_actions(l, actions) matches Some(r) ==> r.tx_signers == l.tx_signers && r.derived == l.derived,
    decreases actions.len(),
{
    if actions.len() > 0 {
        if let Some(l1) = apply_action(l, actions[0]) {
            lemma_actions_keep_signatures(l1, actions.drop_first());
        }
    }
}

} // verus!
