# pgml_api

The decisions behind the SQL interface of a machine-learning extension for PostgreSQL, verified
with [Verus](https://github.com/verus-lang/verus).

- `src/` is the verified library. Training, tuning and deployment are state machines: each step
  names one piece of work for the host, and the host's reply decides the next step. The rest are
  plain functions: which metric ranks the models of a task, which of two models is kept, which
  statements dump and load the tables, how a row of features is matched with its columns.
- `tests/` runs the library against hosts with fixed answers.
- `app/` is the extension around it. `app/host.rs` says what it needs of the server, of the
  object-relational layer and of the Python bindings; `app/spi.rs` reaches the server through
  `pgx`, and `app/python.rs` reaches Python through `pyo3`.

What the proofs rest on besides Verus is small: a handful of wrappers around `serde_json` in
`src/json.rs`, one around `ndarray` in `src/features.rs`, and one around the `{:?}` format in
`src/text.rs`. The documentation of each says what it claims.

Floating-point numbers do not occur in the library. A metric is held as its IEEE 754 bits and
compared in `src/score.rs`; features are values of a type parameter.
