# netconnpool

A TCP/UDP connection pool for IPv4 and IPv6, in client mode (dialing) or
server mode (accepting), with idle buckets per protocol and IP version,
health checks, leak detection, lifetime and idle expiry, and statistics.

## Layout

- `src/` — the verified core, checked by Verus:
  - `config.rs` — settings, their defaults, validation and repair;
  - `connection.rs` — the lifecycle state of one connection and its
    identifier generator, with every clock reading passed in;
  - `stats.rs` — saturating counters and their snapshots;
  - `pool_model.rs` — the abstract pool state, its invariant and the
    transition of every operation;
  - `pool.rs` — the pool state machine: each operation is proved to perform
    exactly its transition and to keep the invariant;
  - `idle_queue.rs` — the contract of the lock-free queue holding idle
    entries;
  - `udp.rs` — the decisions taken while draining a UDP socket;
  - `mode.rs`, `protocol.rs`, `ipversion.rs`, `errors.rs`, `text.rs` — the
    small types and their text forms;
  - `laws.rs` — properties spanning several operations.
- `app/` — the I/O layer: sockets, user callbacks, threads, waiting and
  clocks. It serialises access to the core and carries out its decisions.
- `tests/` — tests of the core on concrete values.
