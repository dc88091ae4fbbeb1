# noi

A lending protocol for CosmWasm chains, with its logic verified by Verus.

- `src/` is the verified library: the market (positions, collateral, debt, the
  compounding fee index, queries and pagination), the core registry of
  markets and its replies, the price oracle's settings and the treasury's
  token messages. Every public function states what it does in its contract;
  `src/laws.rs` states the properties that relate several operations.
- `app/` is the contracts' shell: storage, sub-messages, queries to other
  contracts and the host, serialisable message types, and the schema command.
- `tests/` runs the library on concrete values.
