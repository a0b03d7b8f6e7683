# nft

A CosmWasm contract for an NFT collection on the Coreum chain, with its rules
verified in Verus.

- `src/` — the verified library: the messages (`msg`), the stored
  configuration (`state`), the answers and chain messages (`response`), the
  transactions and their rules (`contract`), query planning and page
  gathering (`query`), 256-bit amounts (`u256`), and properties of the
  contract as a whole (`laws`).
- `app/` — the entry points: JSON message types, storage, ownership records,
  the chain querier, and the conversion of the library's answers into
  `cosmwasm_std::Response<CoreumMsg>`.
- `tests/` — tests of the library on concrete values.
