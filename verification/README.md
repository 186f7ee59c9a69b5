# pinchtask

A task manager for people and AI agents: tasks with checklists, notes,
resources and metadata, grouped into projects, reachable from a command line,
a terminal interface and an MCP server. Tasks and projects are found by ID
or by a short ID prefix of at least four characters.

## Layout

- `src/` — the library, verified with Verus.
  - `logic/` — the rules on tasks, checklist items, notes, resources and
    projects, ID prefix resolution, and the workspace (`.pinchproject`)
    file and its upward search.
  - `cli/` — what each command computes and the text it prints.
  - `server.rs`, `tools/` — the MCP tools, each a function from parameters
    and stored data to a change and a reply, and the rewriting of their
    JSON Schemas (inlining and nullable types) on a JSON tree.
  - `transport.rs` — message framing.
  - `tui/` — the terminal interface as a state machine (key or result in,
    next state and queued effects out) and every screen as lines of styled
    text.
  - `text.rs`, `ids.rs`, `models.rs`, `error.rs` — strings, IDs and
    timestamps, the data records, errors.
- `tests/` — tests of the library.
- `app/` — the program around it: argument parsing, the SQLite store, the
  MCP server, the terminal loop and drawing, JSON.
