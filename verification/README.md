# crz_rough

A terminal picker: it reads lines on standard input, lists them under an
optional comment, filters them by fuzzy search as the user types, and prints
the line picked with Enter or a click (Esc or Ctrl+C cancels).

Layout:

- `src/` — the library, verified with Verus:
  - `common.rs` — the state, items and their labels and values;
  - `scroll.rs` — cursor moves and the scrolling viewport;
  - `search.rs` — editing the query at a character position, fuzzy matching, filtering;
  - `text.rs` — UTF-8 facts and the `String` operations of std the library calls;
  - `layout.rs` — how many lines each part takes;
  - `input.rs` — events and what each does to the state;
  - `render.rs` — what each drawn line shows;
  - `tux.rs` — the state a session starts from and the value it hands back;
  - `cli.rs` — the options;
  - `laws.rs` — properties that hold across operations.
- `app/` — the program: options parsing, stdin, the terminal loop and drawing.
- `tests/` — tests of the library.
