# bundler

The decisions and value handling of a smart-account wallet bundler, verified
with Verus.

- `src/` is the verified library: API errors and their replies, the
  authentication decision, the administrator's balance and top-up answers,
  the wallet service's address lookup and address search (a state machine
  driven by the caller's chain calls), call data for a smart account's
  `execute`, the paymaster's deposit in ether, and the outcome of a user
  operation from its raw event log and the event listener's answer to each
  poll of the chain. Calls into `ethers` (parsing, formatting, ABI encoding
  and decoding, hashing) stand behind small trusted functions, in
  `src/eth.rs`, `src/contracts.rs` and `src/listener.rs`, whose contracts
  state what those functions return.
- `src/laws.rs` holds the properties that span functions: a stored wallet
  address reads back as the same address, an amount written in ether reads
  back as the same amount of wei, decimal text reads back as its number, an
  address search keeps a decimal seed suffix and finishes at the first
  address it derives that is free or deployed by this service, and the
  listener writes nothing before a matching log arrives.
- `app/` is the HTTP server around the library: configuration, the chain
  client (with the mint to a new wallet), the store, the middleware and the
  handlers.
- `tests/` runs the library on concrete values.
