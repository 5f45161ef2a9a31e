# ore_hq_server

A mining-pool server for the ORE proof-of-work token on Solana. Miners connect
over a websocket, receive a challenge and a nonce range, and send back their
best solutions; the pool submits the hardest one when the epoch ends and shares
the rewards by contributed hashpower.

- `src/` is the verified library (Verus): wire frames and message handling
  (`wire`), connection authentication (`auth`), epoch bookkeeping (`epoch`,
  `keyed`, `solution`), nonce ranges (`nonce`, `mining`), reward sharing
  (`rewards`), priority fees (`fee`), the tracked proof account (`pool_proof`),
  plain HTTP answers and forwarded-message handling (`server`), database outcome
  rules and the batched reward update (`database`, `decimal`). Calls into the
  Solana SDK, drillx, ORE and std are gathered in `chain` as trusted items,
  except the two account decoders of `ore_utils`, which stand in `pool_proof`
  beside the account types they fill.
- `app/` is the server program: websocket and HTTP endpoints, RPC and pubsub
  clients, the database connections, and the loops that drive the library.
- `tests/` exercises the library on concrete values.
