# token_enforcer

Per-tenant LLM token budget enforcement. Budgets and usage counters live in Redis under
`{prefix}:budget:{tenant_id}` and `{prefix}:usage:{tenant_id}`; usage events are queued and
flushed periodically to a pluggable sink.

Layout:

- `src/` — the verified core:
  - `keys.rs`: the key schema, with a proof that keys of different kinds or tenants differ;
  - `store.rs`: the commands sent to Redis, their answers, and a model of what each does;
  - `enforcer.rs`: each operation as a session that issues commands and decides on the
    answers (budget checks, reservations and their settlement), the meaning of every
    operation over the store model, and the laws that hold of them;
  - `models.rs`, `config.rs`, `error.rs`: the data types, configuration and error type;
  - `flush.rs`: the flush schedule and the draining of the event queue.
- `app/` — the async runtime around it: `TokenEnforcer`, which runs sessions against a
  Redis pool, the background flush task and the `FlushSink` trait, and copies of the data
  types with serde and thiserror derives.
- `tests/` — the operations driven against an in-memory store, and unit tests.
