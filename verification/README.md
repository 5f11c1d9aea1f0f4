# ledger_engine

A transaction engine for client asset accounts — deposits, withdrawals and
the dispute / resolve / chargeback lifecycle — verified with Verus.

- `src/amount.rs` — `Amount`, the library's decimal value (a 96-bit mantissa
  and up to 28 places), with its arithmetic delegated to `rust_decimal`.
- `src/domain/` — accounts, instructions, outcomes.
- `src/engine_core/` — the storage traits and their in-memory versions, the
  engine (`Engine::apply`, proved to follow the `step` model), shard routing,
  and `laws.rs`, the properties proved of `step`.
- `src/parse*.rs`, `src/csv_row.rs` — turning a CSV row into an instruction.
- `src/report.rs`, `src/account_row.rs` — the per-client output.
- `app/` — the command-line program: file and CSV I/O, the tokio shards,
  queues and clients.
