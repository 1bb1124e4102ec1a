# seismic-rpc

The logic of a Seismic node's `eth_` endpoint, with contracts that Verus proves.

- `src/uint.rs`: 256-bit integers as limbs, big-endian words, and the arithmetic taken from
  `alloy-primitives`.
- `src/balance.rs`: `eth_getBalance`. Which lookups a balance takes (a `balanceOf` call to the
  USDC predeploy and a read of the account), and what their outcomes amount to: the higher of the
  native balance and of the USDC balance at 18 decimals.
- `src/request.rs`, `src/signing.rs`: signable Seismic transaction requests, their conversion to a
  transaction environment, and the placeholder transaction that they are signed as.
- `src/api.rs`: the endpoint as a handle on a node's backend, and its builder.
- `src/laws.rs`: what holds of balances and requests as a whole.
- `app/`: the node side. It makes the lookups, converts values, and implements the node's traits.
  It is built inside the node's workspace, whose crates it names.
