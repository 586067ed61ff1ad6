# mini-temporal

A small workflow-orchestration service that adds two numbers, with its logic
verified in Verus.

- `src/` — the verified library:
  - `shared.rs`: wire types, constants, and the worker's set-once globals;
  - `workflow.rs`: the workflow's state, its `run` decision, its signal and
    query handlers;
  - `activity.rs`: the `add_numbers` activity as a step machine
    (announce, five × sleep/heartbeat/progress, complete);
  - `api.rs`: the HTTP server's decisions (workflow ids, PENDING / RUNNING /
    COMPLETED / FAILED reports, status codes, the worker list);
  - `identity.rs`: the worker's host name and identity;
  - `text.rs`: decimal rendering, substring search, trimming, and the calls
    into std's Unicode tables;
  - `lifecycle.rs`: laws that join workflow, activity and server.
- `app/` — the server and worker processes: HTTP, the orchestrator client,
  sleeping, and process globals.
- `tests/` — tests of the library on concrete values.
