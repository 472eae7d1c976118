# kiomq

A job queue: jobs wait, are delayed or repeated, are taken by workers, retried
with a backoff and kept or thrown away when they are done. A queue's state lives
in memory, in Redis or in RocksDB.

The rules of the queue are a library verified with Verus. What the library
promises is stated in the `requires` and `ensures` of its functions, and the
properties that span several functions are public proof functions whose names
begin with `law_`.

## Layout

- `src/` is the verified library.
  - `job/`: jobs, their options, states, delays, backoff and repetition.
  - `queue/`: a queue's collections, options, metrics and counters.
  - `stores/`: what a queue holds (`state.rs`), and how the in-memory store, the
    Redis store and the RocksDB store change it. For Redis the library makes the
    commands and reads the replies; for RocksDB it makes the write batches over
    an image of the column families.
  - `worker/`: a worker's life and its loop, as steps from event to action.
  - `timers/`: the expiring maps and the timers of a queue.
  - `metrics/`: figures of processes, workers and tasks.
  - `events/`: what a queue reports, and its event stream.
  - `error/`: errors and the text of a caught panic.
  - `utils/`: scheduling and processing rules, collections, text.
  - `outside/`: the calls into other crates. Their contracts are believed, not
    proved; each says which function it calls.
- `app/` is ordinary Rust round the library: tokio tasks, connections, serde
  copies of the library's types, floating-point figures.
- `tests/` runs the library with the real crates.
