# wmic-rs

A WMIC-compatible command line (`wmic.exe`) as a verified library with a thin program around it.

- `src/` is the library, verified with Verus:
  - `text.rs`: character-level helpers (ASCII case, splitting, trimming, decimal text).
  - `aliases.rs`: the 81 inbox aliases, case-insensitive lookup, global and alias help.
  - `cli.rs`: the command-line grammar; `parse` is specified by `parse_spec`.
  - `record.rs`: property values and name-ordered records.
  - `output.rs`: table, value/list, CSV, raw XML and HTML rendering; `render` is specified
    by `render_spec`.
  - `engine.rs`: help, CONTEXT, WQL construction and running queries against a `Backend`.
- `app/` is the program: argument and environment reading, output to a file or the console,
  and the Windows backend that queries WMI through the `wmi` crate.
- `tests/` exercise the library from outside.
