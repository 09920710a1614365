# Stellar Nebula Nomad

The resource economy of an on-chain space game: players harvest stardust from
scanned anomalies under a daily cap per ship, lock resources in a staking
position, and earn plasma yield on it.

- `src/` is the economy itself, verified with Verus. It works on the entries and
  events of a `Ledger` value; the caller says in an `Invocation` which ledger a
  call is part of and who has authorised it.
  - `invocation.rs`, `records.rs`, `table.rs`, `ledger.rs`: the data.
  - `rules.rs`: what each operation answers and what it makes of the ledger.
  - `resource_minter.rs`: the operations.
  - `nebula_scan.rs`: the order of work of a nebula scan.
  - `supply.rs`, `laws/`: what holds of every operation and of every history.
- `app/` is the Soroban contract around it: entry points, contract storage,
  authorisation, events and calls to other contracts. A call brings the few
  entries that decide it, and afterwards carries out the writes that were logged.
- `tests/` runs the economy on concrete values.
