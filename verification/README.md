# thog_staking

The decision logic of an NFT and token staking program, verified with Verus.

- `src/account.rs`: account addresses, staked items, user pools (with their
  sequence view `PoolState`) and the global pool; adding and removing items.
- `src/utils.rs`: the reward arithmetic, item lookup, and the clock.
- `src/instructions/`: one module per instruction. Each holds a plain struct
  with what the instruction reads, a spec function giving the new state and the
  result, the verified handler, and a bounds test the caller runs first.
- `src/laws.rs`: properties across operations: reward accrual over time, the
  pool invariants every instruction keeps, ownership, repeated requests.
- `app/lib.rs`: the on-chain program around the library: account layouts,
  contexts, cross-program transfers and the entry points.
