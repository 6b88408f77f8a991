# solana_programs

Verified decision logic of seven small Solana programs: a constant-product
liquidity pool (`amm`), a calculator, a hand-built system `Transfer`
(`cpi_contract`), two token escrows (`escrow`, `escrow_blueshift`), an NFT
marketplace, NFT staking and a SOL vault.

- `src/` is checked by Verus. Each instruction is a function from the
  accounts it reads (plain values: 32-byte keys, amounts, decoded state) to
  the new state and the steps it asks for (`ledger::Step`): a token or
  lamport movement, or the closing of one of the program's own accounts
  (`ledger::TokenAction`), the seeds that sign it for the program
  (`ledger::Signer`), and whether the program's own code passes a refusal
  up as its error or answers success anyway.
  `ledger` gives the steps a meaning. `apply_actions` carries out the
  movements: the token and system programs' refusals (unknown or
  mismatched accounts, wrong owner, insufficient balance, overflow) and
  their effect on balances, lamports, mint supplies and open accounts.
  `apply_steps` adds signatures: a step needs its authority to have signed
  the transaction or to be the address its seeds derive. A refused step
  aborts the whole transaction whatever the program does with the error;
  `program_answer` is the answer the program's own code gives. `consistent`
  says that every balance fits in a `u64`, and every accepted action keeps
  it so. The round-trip, conservation, signature and refusal lemmas of each
  program are stated over these.
- The constant-product curve is queried by the caller: the pool's
  `*_request` functions state the exact query, and the deciding functions
  take the curve's answer.
- `app/` is the Anchor side: account validation, (de)serialisation, curve
  queries and the cross-program invocations that carry out the actions.
- `tests/` run the library on concrete accounts.

The vault program's `close` instruction is not here: it names a `Close`
accounts type that the program never defines, so there is nothing to
build it from.
