# taimi_hud

The decision logic of TaimiHUD, a Guild Wars 2 addon for timers and
commander markers, written in Verus and proved against its contracts.

- `src/` is the verified library:
  - `settings` — persisted settings, data sources and their update status;
  - `timer` — timer definitions, triggers and alerts;
  - `marker` — commander marker sets and marker files;
  - `marker_edit` — the edits the marker editor makes to a marker file;
  - `controller`, `autoplace`, `control` — squad roles, combat state, the
    timers of the current map, marker autoplacement and the controller's
    reaction to each event;
  - `render` — the state behind the addon's windows and tabs;
  - `render_state` — the timer window and how the render side meets the
    controller's events;
  - `tabs` — the category indexes of the timer and marker tabs;
  - `exports` — the Nexus and arcdps runtimes and the choice between them;
  - `jsonc`, `space`, `keyed` — data-file preparation, renderer descriptions
    and a small verified map.
- `tests/` exercises the library on concrete values.
- `app/` is the host side: file and network I/O, the controller thread and
  floating-point geometry.
