# light_engine

A download engine for tokio and reqwest. Its decisions live in a library
verified with Verus (`src/`); the asynchronous plumbing that acts on them
lives in `app/`.

- `src/task.rs` — the life of a download task as a state machine: each
  event (a permit granted, a response, a chunk, a timeout, a failure, a
  cancellation) gives the next action and the status to publish. Retries,
  the error of the last attempt and the byte count are proved here.
- `src/manager.rs` — the status registry, a `dashmap::DashMap` keyed by
  task id, with the laws of reading, updating and forgetting statuses.
- `src/limiter.rs`, `src/watcher.rs` — limiter settings and the refill rules
  of the stream and token-bucket semaphores, with their bounds.
- `src/engine/download_manager.rs` — how a file is split into ranged block
  requests, and the `Range` header of a block.
- `src/task_handle.rs` — how the results of a batch of tasks are settled.
- `app/` — the engine, its tokio tasks, HTTP and file I/O, semaphores and
  refill threads, and the task handles as futures.
