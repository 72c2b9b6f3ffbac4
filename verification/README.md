# event_handler

The decision logic of a small Hyprland helper daemon, verified with Verus.

The daemon listens on a Unix socket for one-line commands (`toggle_scratch`,
`close_window`, `move_focus`), asks Hyprland's command socket about the focused
window and sends it commands. Further handlers (`switch_master_side`,
`move_sublime_text`, `magnifier`, `eww_open`, `eww_todo_getall`) are part of the
library too.

- `src/` — the verified library. Each handler in `src/events/` is a state machine
  over `session::Action` and `session::Event`; `command` reads a request,
  `hypr` knows the command socket, `helper` reads the Todoist inbox from CSV and
  writes it as JSON, `json` parses Hyprland's replies (through serde_json) and reads the documents, `text`
  splits words and writes numbers, `laws` states properties across calls.
- `app/` — the daemon: sockets, processes, the shared state behind locks, and the
  magnifier's floating-point zoom factor.
- `tests/` — tests of the library on concrete values.
