# Eventful

An in-memory event processing service. Events are ingested idempotently,
queued on a bounded channel, processed by a bounded worker pool, retried
with capped exponential backoff, and swept back onto the queue when they
are due or when their queue entry went stale.

## Layout

- `src/` — the verified library (Verus).
  - `domain/` — events, records, the status lifecycle, payload hashing.
  - `store/` — the record store and its retry state machine (`memory.rs`),
    its abstract model (`spec.rs`) and the laws proved of it (`laws.rs`).
  - `service/` — ingestion and scheduling, the sweeper, the worker's
    results, the dispatcher's and shutdown's decisions, the channel calls,
    and the service laws.
  - `http/` — the replies to ingestion requests.
  - `clock.rs` — the wall clock.
- `app/` — the program around it: the HTTP server, the asynchronous
  loops that carry out the dispatcher's and shutdown's decisions, the
  workers, the sweeper's timer, and Prometheus metrics.
- `tests/` — tests of the library.

## Model

- Instants are milliseconds since the Unix epoch (`i64`). Every operation
  that reads the clock has a twin ending in `_at` that takes the instant as
  an argument and carries the exact contract.
- A payload is held as its JSON text; its hash is the lowercase hex MD5 of
  that text.
- The store keeps its records in a string-keyed hash map and lists the ids
  in insertion order, which is the order in which candidates are offered.
  That each stored id is listed once and each record sits under its own id
  is the store's type invariant.
- The ingestion service counts what it ingested, deduplicated and enqueued;
  the application publishes these counts as metrics.
