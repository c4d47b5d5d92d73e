# kv_router

Session-sticky request routing for LLM serving, verified with Verus.

Requests of a multi-turn session follow the `(worker, dp_rank)` that the session
is bound to. When that rank is overloaded, the session can move to a colder rank
by a shadow rebind: the old binding stays visible until the cold worker confirms
that its prefill is complete, and any other outcome leaves the session where it
was.

- `src/sticky/` holds the affinity store, the router around it, the session
  coordinator and the counter that gives out revisions. `state.rs` is their mathematical model, `laws.rs` what holds of
  them as a whole.
- `src/push_router/` holds the request path: the rebind decision, the selection
  and dispatch steps, the response gate that settles a rebind, and the migration
  endpoint. `laws.rs` again states what holds across the steps.
- `src/maps.rs`, `src/json.rs`, `src/text.rs` and `src/time.rs` hold the items
  whose contracts are trusted: concurrent maps, JSON values, number parsing and
  the clock.
- `app/` is the async plumbing around the library: services, settings, streams
  and metrics.
