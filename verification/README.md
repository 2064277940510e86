# bench-pg-rs

A PostgreSQL benchmark of database access libraries under an accounting
workload: purchases, sales and costs posted to a general ledger, with the
periods opened and closed (inventory revalued at standard prices) while
concurrent users run the operations and every operation is timed.

- `src/` is the verified library (Verus): periods and dates, decimal amounts
  (computed by `rust_decimal`), master data keys, documents and their ledger
  postings, the inventory plans of purchases, sales, period opening and
  closing, workload generation and ordering, the hand-out of operations to
  users, metric records and the grouping of statistics.
- `app/` is the program around it: the command line, the database drivers
  (`tokio-postgres` with `deadpool`, and `sqlx`), the async run loop and the
  floating-point statistics.
- `tests/` exercises the library on concrete values.
