# soaricarus_api

Verified query building and result decoding for the soaricarus media API's
Postgres tables (`coverart`, `coverartQueue`, `songQueueData`).

- `src/` (Verus): for each repository operation, a function that builds the
  statement (SQL text, bound values in placeholder order, fetch-one or
  execute) and a function that turns the database's answer into the
  operation's result. Every statement is proved to use exactly the
  placeholders `$1`..`$n` for its `n` bound values.
- `app/`: runs the statements on an `sqlx` Postgres pool, decodes row columns
  with `sqlx`, and reads settings from the environment.
- `tests/`: the decoding and statement functions on concrete values.
