# Habitodo

A desktop habit and to-do tracker. The crate is split in two:

- `src/` is the verified library (Verus). It holds the calendar model
  (`calendar`), the domain records (`domain`), the keyboard shortcut table
  (`keybindings`), the application state machine (`app`), the pure parts of
  the storage layer (`queries`), what the screens compute (`presentation`),
  text helpers (`text`) and command-line dispatch (`cli`). The state machine
  never touches storage: each transition returns an `Effect` naming the
  storage, export or focus work to do, and the caller reports the outcome
  back (`write_finished`, `reload_finished`, `export_finished`).
- `app/` is the program around it: the SQLite store (rusqlite), the JSON
  backup format (serde), the iced user interface, the event loop that carries
  out the effects, and `main`.

Laws of the state machine are proved in `src/app/laws.rs`; those of the
shortcut table, calendar, reordering and trimming stand beside the functions
they speak of.
