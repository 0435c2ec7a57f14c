# easytier-tui

A terminal front end for managing an EasyTier network (install or update the
binaries, start and stop the service, look at peers, routes, node details and
traffic, collect a diagnostic report), with its decision logic verified by
Verus.

Layout:

- `src/` — the verified library.
  - `state.rs`: the interface state `AppState`, every change a key press or a
    command outcome makes to it, and the relations (`key_step`, `entered`,
    `backed`, ...) that their contracts are written in.
  - `screen.rs`: the header, title and body each page shows.
  - `install.rs`: release archive choice, release feed parsing and the
    installation's status messages.
  - `text.rs`, `random.rs`: decimal rendering, substring search, byte-bounded
    prefixes, random names.
  - `laws.rs`: properties across operations (the cursor never leaves the menu,
    key presses never touch loaded data, moves and edits undo each other).
- `app/` — the program: terminal, keyboard, files, network, the `easytier-cli`
  tool and JSON/TOML reading; it performs the outside work the library asks
  for and hands back the outcome.
- `tests/` — tests of the library on concrete values.
