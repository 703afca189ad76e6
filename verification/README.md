# Template distribution over Bitcoin Core's IPC interface

A library of verified decisions for a process that gets block templates from a Bitcoin
Core node over its IPC socket and distributes them to Stratum V2 peers.

- `src/` holds the decisions, proved with Verus. Each function takes where a task stands
  and what came of its last await, and says what the task does next and what becomes of
  the state that tasks share. Objects of the node appear as numbers (`Capability`).
- `app/` holds the tasks: they own the socket, the node's objects and the channels, and
  carry out what the library decides.
- `tests/` runs the library on concrete values, with the real outside crates.

Two ways of fetching a template are offered. The sequential one makes its three calls
(`get_block_header`, `get_coinbase_tx`, `get_coinbase_merkle_path`) on one thread of the
node; the concurrent one makes them at once, each on a thread of its own. Both succeed on
the same answers, then give the same data, and lose nothing of what the node sent
(`src/fetch_laws.rs`).

The service distributes nothing before the first `CoinbaseOutputConstraints` message.
When the chain tip changes, every template that was kept becomes stale: a request for it
is answered with `stale-template-id` until the tip changes again. With one template
monitor at a time and no poisoned lock, the templates that are kept all build on the
current tip (`src/service_laws.rs`). A handler works only once the one before it has
returned, and new constraints end every template monitor but the one started for them
(`src/run_laws.rs`).
