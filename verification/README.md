# chronolog_core

Scheduling primitives with a verified core.

- `src/` is the library, written in Verus and proved: schedules (interval, immediate,
  cron, calendar), the virtual and system clocks' decisions, the ordered task store,
  the scheduler's due-run decision, the policies of sequential, parallel, retriable,
  conditional, fallback, select and dependency frames, logical and counted dependencies,
  listener registries and task priorities. `src/laws.rs` holds the properties that span
  several operations.
- `app/` is the asynchronous runtime around it (tokio): the scheduler loop, the task
  frames, events, metadata and the worker pool. It calls the library for every decision.
- `tests/` exercises the library on concrete values.

Calls into `chrono`, `cron-parser` and `dashmap` stand behind small trusted wrappers in
`src/local_time.rs`, `src/schedule.rs` and `src/store.rs`, each documented with what it
claims.
