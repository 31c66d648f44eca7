# pallet-dex

A decentralised exchange of fungible assets, verified with Verus. Pools are keyed by the
unordered pair of their assets; creating a pool or adding liquidity to it moves the provider's
assets into the pool's account and mints liquidity tokens, the square root of the product of
the amounts, rounded down.

- `src/encoding.rs`: SCALE encodings, byte order, and the blake2 digests (through
  `frame_support` and `sp_runtime`) from which pool ids, liquidity token ids and accounts come.
- `src/math.rs`: the integer square root.
- `src/vec_map.rs`: the finite maps in which the storage is held.
- `src/types.rs`: pools, events, origins and errors.
- `src/assets.rs`: the ledger of assets and balances that the pallet operates on.
- `src/pallet.rs`: the pallet's state and calls, each with its contract.
- `src/laws.rs`: properties that span the calls.
- `app/lib.rs`: SCALE-encodable copies of the stored and emitted types.
