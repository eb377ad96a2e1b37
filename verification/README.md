# cog

Durable memory for agents: an append-only **ledger** of JSON entries per stream,
and **state machines** whose states and transitions are data. Every command reads
or writes a SQLite store and prints a JSON result.

## Layout

- `src/` — the verified library (Verus).
  - `domain/ledger.rs` — `LogEntry`, `Stream`; reading a stream most recent first
    (a stable sort on `seq`), with the laws that this order is fully determined
    and is the reverse of any stream built by appends.
  - `domain/state_machine.rs` — `Definition`, `StateMachine`: validation (first
    undeclared name), `define`, `transition` (unknown target, terminal source,
    missing edge), context replacement; the consistency invariant.
  - `application/ports.rs` — the store traits, each with an abstract model and
    the contract a store must meet (sequence numbers, append-only, read after
    write).
  - `application/usecases.rs` — `AddLogEntry`, `QueryLog`, `DefineMachine`,
    `Transition`, `GetState`, stated over the store models, with the domain
    steps `advance` and `state_of` on what a store returned.
  - `infra/cli.rs` — command-line parsing, specified by a left-to-right scan.
  - `infra/json.rs` — JSON checks on payloads and contexts (through `serde_json`).
  - `error.rs` — the domain and technical error channels.
- `app/` — the program: SQLite adapters, JSON (de)serialization of definitions,
  the per-command transaction, output and exit codes (0, 2, 64, 70).
- `tests/` — scenario and unit tests against in-memory stores.
