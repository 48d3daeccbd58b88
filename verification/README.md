# neurocortex

A guard for autonomous coding agents, served over the Model Context Protocol.
Every state-mutating action an agent proposes is screened before it runs:
repeated identical payloads are let through after three attempts, payloads
carrying credentials are rejected, the nearest learned behavioral rules are
matched, a local model judges the intent, and what still passes is dry-run in
an ephemeral container without network access and with the workspace mounted
read-only.

Layout:

- `src/` — the verified library (Verus).
  - `guard.rs`: churn counting, secret scrubbing, and the validation session
    (a state machine from reported events to the next outside step), with the
    laws that tie it to the guard's pipeline.
  - `sandbox.rs`: engine choice, the checks made before a dry run, the
    container invocation, and the verdict of a finished run.
  - `semantic.rs`: acceptable embedding models, cache selection, rule-store
    keys, and the verdict on the local model's reply.
  - `protocol.rs`: request routing, learned rules, synchronisation replies.
  - `models.rs`, `text.rs`: data types with their views, and text helpers.
- `app/` — the server process: stdin/stdout JSON-RPC loop, container and
  filesystem access, the embedding model and the LanceDB rule store.
- `tests/` — tests of the library on concrete values.
