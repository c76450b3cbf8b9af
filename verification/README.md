# bouncer

Leases, ownership, and fencing tokens for SQLite apps, verified with Verus.

A named resource is one row of `bouncer_resources`. A claim hands out a lease
with an expiry and a fencing token; the token grows by one with every
successful claim and never resets, across release, expiry and reclaim. Only
the live owner renews (never shortening the lease) or releases.

## Layout

- `src/model.rs`: the mathematical model of a row and of what claim, renew,
  release and the reads answer and write for each state of it.
- `src/laws.rs`: properties across operations, proved over the model
  (validity kept, monotonic tokens, exclusivity, read-back, renewal never
  shortens, release then reclaim).
- `src/engine.rs`: the lease operations on a SQLite connection, in their own
  `BEGIN IMMEDIATE` transaction or inside the caller's; schema bootstrap.
  Every decision on what the database or the connection handed back
  (`decide_loaded`, `claim_loaded` and its siblings, `owner_row`,
  `token_row`, `tx_guard`, the `*_in_tx_given` and `*_auto_given`
  functions, `bootstrap_given`, `table_sql_of`, `column_info`,
  `check_existing_schema`) and every statement text and parameter list
  handed to it (`lookup_statement`, `write_statement`,
  `create_table_statement`, `table_sql_statement`, `table_info_statement`,
  and `native::tx_control_statement`) has an exact contract; what the
  database returns is outside any contract. `created_table_passes_schema_check`
  proves that the table bootstrap creates passes the check a later
  bootstrap applies.
- `src/schema.rs`: the persisted-schema validation and its diagnostic text.
- `src/honker.rs`: the first self-contained surface (ttl checked before any
  transaction, create-only bootstrap).
- `src/wrapper.rs`, `src/clock.rs`: `Bouncer`, `BouncerRef`, `Transaction` and
  `Savepoint`, which read the system clock.
- `src/sql_functions.rs`: what the `bouncer_*` SQL functions compute.
- `src/native.rs`: the owned-connection handle behind the Python binding.
- `src/sqlite.rs`: the trusted calls into `rusqlite`.
- `app/`: SQL function registration, the Python module, and `Display` error
  types.
