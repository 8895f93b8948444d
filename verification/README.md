# stellar_lend

The rules of a Soroban lending protocol and its companion contracts, written
in Verus and proved against their contracts.

- `src/` is the verified library: interest rounding (`rounding`), debt
  positions (`debt`), the utilisation rate model (`rate_model`), the lending
  protocol's state machine (`lending`), a constant-product pool (`amm`), the
  bridge's validator quorum, inbound rate limit and outbound nonces
  (`bridge`), vesting grants (`vesting`), a multisig proposal machine
  (`multisig`), cross-asset debt tracking (`cross_asset`) and governance
  payload binding (`governance`). Each module ends with the laws it proves.
- `tests/` exercises the library on concrete values.
- `app/` holds the Soroban contracts around the library: ledger storage,
  authorization, events and cross-contract calls.
