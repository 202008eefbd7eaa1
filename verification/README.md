# postg

Embedded PostgreSQL for Rust, verified with Verus.

- `src/` is the verified library. It decides and spells out everything the
  tool does: engine names and paths, the managed section of
  `postgresql.conf`, the lifecycle of an instance (extracting the binaries,
  `initdb`, starting, waiting until it accepts connections, stopping), the
  mapping between PostgreSQL and Arrow types, the `CREATE TABLE` statement
  and binary `COPY` encoding for Parquet imports, the command line's plans,
  the HTTP API's query classification and the replication report.
  Lifecycle steps return `effects::Effect` values instead of touching the
  system; each step's contract states the next state and effect exactly.
- `app/` is the command-line program: it parses arguments with clap, runs the
  effects (files, processes, HTTP downloads, sockets, the clock), talks to the
  database with sqlx, serves the HTTP API with axum and reads and writes
  Parquet files.
- `tests/` exercises the library on concrete values.
