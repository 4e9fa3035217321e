# wisp

The verified core of Wisp, a personal driving heatmap explorer that imports
trips from several sources (GPX, Strava, Connected Cars, Google Timeline).

- `src/` — the library, verified with Verus: source kinds, trip identifiers,
  the errors of stores and sources with their messages, and the decisions of
  a sync (which source serves a request, which call comes next, what a sync
  reports or why it failed), with the laws those decisions obey.
- `app/` — the async ports (store, source, service), the orchestrator that
  performs the calls the core decides on, the floating-point geographic
  types, and serde/thiserror-enabled copies of the core's plain types.
- `tests/` — tests of the library.
