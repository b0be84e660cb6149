# miner_prover

The rules by which a validator judges the executors of its miners, verified
with Verus.

- `src/` holds the rules: reading `lshw` reports (`json`, `json_source`,
  `lshw`, `hardware`), collecting profiles (`collection`), choosing a
  validation strategy (`strategy`, `clock`), carrying validations out
  (`executor`, `probe`) and scoring them (`scoring`, `binary64`).
- `app/` performs what the rules ask for: it talks to machines, to the
  database and to the metrics, and does the floating-point arithmetic on
  scores.
- `tests/` runs the library.

Scores pass through the library as the bits of binary64 numbers. The library
says which figures make up a score; `app/scores.rs` computes it.
