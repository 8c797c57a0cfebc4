# amm_q3

A constant-product automated market maker pool whose decisions are verified
with Verus.

- `src/` is the verified library. From plain snapshots of the pool's accounts
  it decides whether a deposit or a withdrawal is accepted, with which error
  it is refused, and which token movements (transfers, LP mint, LP burn, and
  the config account's signer seeds) make it up.
  - `state`: the pool's config.
  - `error`: the pool's errors and the mapping from the curve's errors.
  - `actions`: the token movements and the signer seeds.
  - `deposit`, `withdraw`: the two instructions.
  - `laws`: properties proved over all inputs (no dilution on deposit,
    monotone deposit cost, slippage limits, locked pools refuse everything,
    signer seeds identify the pool, ...).
- `app/` is the Anchor program around it: account validation, entry points,
  the call into the constant-product curve for withdrawal amounts, and the
  token-program calls that carry out what the library decided.
- `tests/` runs the library on concrete pools.
