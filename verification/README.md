# opencore_rustroops

The view models and state reducers of a desktop AI workspace shell, written
in Verus with their behaviour stated in `requires` / `ensures` contracts and
proved.

- `src/shell/left_sidebar/` — the sidebar of work items ("atoms"): shelves
  (pinned, active, settled, archived), search, project scope, selection,
  renames, drag-and-drop reordering, keyboard moves and paging; `laws.rs`
  holds what stays true across those operations.
- `src/shell/tabs.rs`, `src/shell/tab_session.rs` — the titlebar tab strip
  and its rename session.
- `src/shell/` (other files) — workspace modes, placeholders, conversation
  labels, the center tab host, dock layout restore decisions, drop indices.
- `src/app_state.rs`, `src/preferences.rs`, `src/welcome.rs` — screen
  routing, persisted preferences, onboarding.
- `src/text.rs`, `src/id_list.rs`, `src/id_set.rs`, `src/id_map.rs` — string
  helpers and id collections the rest is built on.
- `app/` — the floating-point chrome sizes, panel tweens and intro fade that
  the desktop front end draws with.
- `tests/` — scenario tests run against the compiled library.
