# zakat_pool

A zakat collection pool for the Soroban ledger, with its decisions verified
in Verus.

- `src/` is the verified library: the category buckets of an asset and their
  checked arithmetic (`bucket.rs`), the solvency audit and the pool's read
  paths (`pool.rs`), the ordered protocol of a contribution as a state
  machine driven by the host's answers (`contribute.rs`), the typed errors
  (`error.rs`) and the context policy of the attesting account
  (`advanced.rs`). Laws about them are proof functions beside the code.
- `app/` holds the contracts as deployed: the entry points that talk to the
  ledger host (storage, authorization, token transfers, events, deployment)
  and pass what the host reports to the library.
- `tests/` exercises the library on concrete values.
