# opencode

The decision logic of the opencode runtime and HTTP server, written in Verus
with its contracts proved.

## Layout

- `src/` — the verified library.
  - `control_plane/` — workspace selector resolution (query before header),
    route policy, local-vs-forward routing decisions, forwarding rules
    (header stripping, URL joining, bounded retry with exponential backoff),
    control-plane errors and counters.
  - `server/` — request bodies and patches of the HTTP routes, workspace
    metadata validation, error responses, bus-event translation for the
    event stream, project foundation records, configuration defaults and
    bounds.
  - `session/` — run-state coordination (one run per session), pending
    permission and question registries, wildcard permission rules, the
    prompt-run and prompt-stream state machines, the prompt loop's next
    step, model history conversion and status reporting.
  - `storage/` — permission-rule normalisation and merging, the stored
    text forms of workspace ids and metadata, the event-store contract.
  - `json.rs`, `text.rs`, `seqs.rs`, `keyed.rs`, `ids.rs` — the JSON model,
    string and sequence helpers, keyed vectors and identifiers they share.
- `app/` — the parts that do I/O: the axum middleware and proxy, the SQLite
  workspace repository, the event stream forwarder, the session engine's
  driver (prompt, detached prompt, cancel, status) over a storage/provider
  backend trait, the waiting permission and question services and their
  events, the git probe, and serde copies of the wire types.
- `tests/` — tests run against the compiled library with the outside crates
  linked.

Calls into `uuid`, `serde_json`, `reqwest` and `axum` stand behind small trusted wrappers
in `src/`, each with a doc comment saying what its contract claims.
