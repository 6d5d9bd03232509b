# showit

Search open window titles and bring one to the foreground: substring,
wildcard (`*`, `?`) or regular-expression search over titles and application
type labels, a coloured numbered list, and an interactive prompt to raise,
focus or close a window or search again.

## Layout

- `src/` — the verified library (Verus):
  - `text.rs` — whitespace trimming, substring search, decimal numbers, case mapping;
  - `config.rs` — colour settings, their defaults, hex colour parsing;
  - `display.rs` — colouring text for the terminal;
  - `windows_api.rs` — window records, type labels, the portable window listing;
  - `search.rs` — match modes, wildcard-to-regex conversion, filtering windows;
  - `listing.rs` — the layout of one entry of the window list;
  - `prompt.rs` — what a typed line or the command line asks for.
- `app/` — the program: arguments, the configuration file, terminal input and
  output, and the Win32 calls on Windows.
- `tests/` — tests of the library.
