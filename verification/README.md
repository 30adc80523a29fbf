# fresh_editor

The verified core of a multi-window terminal editor: what plugins may do and
what their commands change, workspace windows and sessions, terminals that move
between windows, mouse gestures over terminals, and the process groups that
windows start.

The library in `src/` is written in Verus. It holds the editor's state as plain
values. Every operation states what it makes of that state, and Verus proves it.
What an operation wants from the machine it appends to the editor's outbox as an
effect; where it needs an answer before it can go on, it is split into stages,
and the host calls the next stage with the answer.

| Where | What |
| --- | --- |
| `src/command.rs`, `permissions.rs`, `dispatch.rs`, `handle_command.rs`, `action_run.rs` | commands of plugins: who may send them, which window they are for, what they do |
| `src/editor.rs`, `window.rs`, `documents.rs`, `terminals.rs`, `effects.rs` | the state and the effects |
| `src/windows.rs`, `dormant.rs`, `remote.rs`, `persistence.rs` | windows, and sessions on other machines |
| `src/membership.rs`, `transfer.rs`, `artifacts.rs`, `extraction.rs`, `extraction_steps.rs`, `extraction_run.rs` | tabs and terminals that move to another window |
| `src/mouse.rs`, `terminal_mouse.rs`, `terminal_grid.rs` | mouse gestures, and selections in a terminal's grid |
| `src/process_group.rs`, `terminal_life.rs`, `terminal_create.rs`, `terminal_window.rs`, `processes.rs` | processes and terminals from start to end |
| `src/snapshot.rs`, `window_snapshot.rs`, `editor_snapshot.rs`, `markers.rs`, `plugin_path.rs` | what plugins read |
| `src/widgets.rs`, `floating.rs`, `panel_handlers.rs`, `popups.rs`, `virtual_buffer.rs` | panels, popups and buffers of plugins |
| `src/laws/` | what holds of several operations together |
| `src/lists.rs`, `text.rs`, `text_map.rs`, `geometry.rs`, `ids.rs` | small parts that the others share |
| `tests/` | the library on concrete values |
| `app/` | the host: signals, processes, files, terminal events, extractions, the answers of plugins, disk and screen, and the loop that carries effects out |

What the library takes from `serde_json`, from `lsp-types` and from the standard
library's lossy decoding goes through a few small functions in `json.rs`,
`session_handlers.rs` and `terminal_grid.rs`, each with a statement of what it
relies on.
