# ubu_store

The canonical state admission layer of UbU, as a library verified with Verus.

The store decides what becomes canonical local state: every canonical writer takes
a mutation envelope, and all of them share one protocol (envelope validation,
Device-scoped replay detection, object-version read preconditions, one ledger row
per accepted request). Advisory candidates live in their own tables and reach
canonical state only through ordinary admission.

## Layout

- `src/` — the verified library.
  - `store.rs`: the tables (an in-memory store with a mathematical view), their
    keys and invariant, and the shared mutation protocol.
  - `admission.rs`: the admission rules for canonical objects.
  - `queries.rs`: the canonical and derived writers, and the admitted-state reads.
  - `candidates.rs`: advisory candidates: proposals, lifecycle decisions,
    rejection with suppression records, admission, and the review reads.
  - `laws.rs`: properties across calls (replay idempotence, key conflicts across
    writers, lost-update prevention, append-only evidence, candidate separation).
  - `messages.rs`: the messages of the store's errors.
  - `order.rs`, `text.rs`, `json.rs`, `envelope.rs`, `errors.rs`, `models/`:
    selection and stable ordering of rows, text helpers (equality, order, LIKE
    matching), JSON readers and writers (through `serde_json`), envelopes, errors
    and records.
- `tests/` — tests of the library, run against the compiled crate.
- `app/` — the asynchronous front: it reads requests through the core crate into
  the library's check values, holds the store behind an asynchronous lock (held
  until the database answers a write), loads it from SQLite when it opens (through the verified `UbuStore::from_tables`, which refuses tables
  that break the store's invariant), writes each accepted write through to SQLite in
  one transaction (putting the store back if the database refuses), and gives errors
  their messages.

What the core crate (`ubu_core`) says of a request — whether an id parses and which
object type its prefix registers, whether a timestamp or label parses, whether a
candidate transition is legal, whether a decided candidate passes the core
validation and how the core type serializes it — reaches the library as plain values, and the
library's contracts state what it does for every such answer.
