# ticketing

The core of an offline-first ticketing and invoicing desktop application,
written in Verus: the rules the application applies are executable functions
with contracts, and the properties that tie them together are proved. What
rests on storage itself (row order, transactions, what a second start reads
back) is carried out by `app/` and is not stated here.

## Layout

- `src/` — the library, verified by Verus.
  - `domain/` — entities, pagination (page clamping, offsets, page counts) and
    the ticket entry rule.
  - `service/` — the checks of each use case (required and unique names and
    codes, ticket issue and validation), split at each storage step.
  - `repository/` — the parameterised SQL of list pages and partial updates.
  - `sync/` — the outbox row, the drain worker's settle decision and retry
    backoff, the server reply judgement, device identity, and the nightly run
    (reconciliation of each table, snapshot, upload) as state machines.
  - `config.rs`, `error.rs`, `text.rs` — configuration defaults and number
    parsing, the error messages, and text trimming and rewriting.
- `tests/` — tests of the library on concrete values.
- `app/` — the desktop shell around the library: commands, SQLite access,
  HTTP transport, background tasks, and the serialisable copies of the
  library's types. It carries out the steps the library decides.
