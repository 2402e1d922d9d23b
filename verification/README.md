# goose_core

The decisions of an agent, written in Verus and proved: which tools it may run,
where a tool call goes, how a reply goes on from turn to turn, how extensions are
configured, connected and listed, how a session is set up, and what the dialogs
of the command line accept.

## Layout

- `src/` is the library. Each type has a view (`XView`) over sequences and plain
  values, and each function says over these views what it returns or changes.
  What goes on over time (a reply, a setup, a dialog) is a state machine: an event
  comes in, the next state and the actions to perform come out, as a `*_step`
  function says. Functions named `law_*` state what holds of all inputs or of
  every run.
- `src/text.rs`, `text_split.rs`, `text_list.rs`, `assoc.rs`, `base.rs` and
  `json.rs` hold what the others build on.
- `tests/` runs the library from outside.
- `app/` is ordinary Rust around it: processes, servers, files, the terminal and
  the routes. It performs actions and reports events.

Calls into other crates stand behind small functions whose contracts are believed:
`regex`, `serde_json`, `lru`, `uuid`, `chrono` and the header types of `axum`.
