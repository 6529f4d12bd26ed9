# rocode

The core of the rocode terminal client, written in Verus: every function
in `src/` carries a contract that Verus proves.

## Layout

- `src/jsonish/`: a tolerant, streaming parser for the JSON-like tool calls
  that language models write. The scanner tracks objects as text arrives;
  the repair pipeline closes strings and brackets, quotes keys, drops
  trailing commas and escapes control characters; the detector matches the
  parsed document against the known tool schemas.
- `src/types/`: the data exchanged with the server (messages and their
  parts, sessions, skills, memory records).
- `src/tui/`: the state machines and text behind the terminal views: the
  session view and its layout, dialogs (providers, skills, the command
  palette), the prompt editors, and the views that decide what each dialog
  shows, leaving only the drawing to the application.
- `src/text.rs`: text helpers shared by all of the above, with their
  specifications (UTF-8 lengths, lines, decimal numbers).
- `app/`: the thin layer that needs the clock, floating point or the
  terminal library's traits.
- `tests/`: tests on concrete values, run against the compiled library.

Calls into serde_json, unicode-width, ratatui, chrono and uuid go through
small trusted wrappers whose doc comments say what each contract assumes
of the outside function.
