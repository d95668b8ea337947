# rspack_graph

A verified module graph for a JavaScript bundler, written in Verus.

- `src/collections.rs` — the `FxHashMap`/`FxHashSet` tables (from `rustc-hash`)
  and the trusted wrappers around the std methods called on them.
- `src/ids.rs` — dependency, connection and module identifiers, and the
  allocator of dependency ids.
- `src/module.rs` — modules, module graph modules, dependencies, connections.
- `src/module_graph.rs` — the graph, its invariant `wf` and its operations,
  each specified over the graph's tables as maps.
- `src/laws.rs` — properties that span operations (read-back, reuse of
  connections, removal undoing resolution, fresh ids, revocation).
- `src/context_dependency.rs` — the CommonJS `require.context` dependency and
  the edits that code generation makes for it.
- `app/` — the one process-wide dependency id allocator, held in a `static`,
  from which every graph and every context dependency draws its ids.
