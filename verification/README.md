# vyper

A tranche protocol on Solana, with its decisions verified in Verus.

- `src/` is the verified library. `state` holds the tranche config account;
  `tranche` checks a new tranche's parameters and decides what creating it
  writes and requests (deposit,
  mints of both tranche tokens, the serum market's accounts and its opening);
  `serum` finds the market's vault signer nonce through the serum program;
  `redeem` splits the vault into capital and interest and decides the payout
  transfer and the burns; `action` describes the requests and decides, request by
  request, whether to go on or to end the instruction.
- `app/` is the Anchor program around it: account validation, the f64
  arithmetic of the payout, and the cross-program calls that perform the
  library's requests.
- `tests/` runs the library on concrete values.
