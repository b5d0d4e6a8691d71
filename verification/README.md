# db_wrapper

The core of a small SQLite-backed storage service, verified with Verus.

- `src/protocol`: the wire protocol's data types (requests, responses,
  payload bodies, cells and rows, errors), column declarations, and the
  byte-level encodings that do not depend on a payload's Rust type
  (Base64 text, the encoded `Ok(())` answer).
- `src/db`: the decisions of the table operations (name and column checks,
  row ids, exports, index and uniqueness questions), the planning of the
  table rebuilds that drop or edit a column, the statements a plan runs
  as data and their SQL text, the transaction rules, and the schema
  operations that run them on a connection (`table_ops`, `schema_ops`,
  `sql_text`), whose contracts speak of a ghost record (`sql_log`) of
  every SQL text run and every question asked of the connection.
- `src/schema_migration`, `src/migration_template`: schema versions as data
  and the update chain that brings an old database to the current version.
- `src/explained`: a model of how the service wrappers are put together
  (typed, mutex-guarded and byte-level).
- `src/text.rs`: decimal rendering, `usize` parsing and ASCII
  case-insensitive comparison with exact specifications.

`tests/` runs the library on concrete values. `app/` holds the edges that
are not verified: serde forms of the wire types, reads from SQLite, opening
and exporting database files, and the text forms of `REAL` cells.
