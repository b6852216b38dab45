# humble-manager

A terminal browser for the game keys of a Humble Bundle account: keys from
every order and the picks of Humble Choice months, cached in SQLite, with
search, filters, sorting, Steam/IGDB metadata and CSV export.

## Layout

- `src/` — the library, verified with Verus:
  - `models/` — keys, bundles, Choice picks, metadata, filter settings;
  - `api/` — what the Humble, Steam, SteamSpy and IGDB answers mean
    (orders to keys, membership pages to picks, request URLs);
  - `db.rs` — cached rows back to keys, picks and metadata;
  - `export.rs` — the rows of a CSV export;
  - `tui/` — the UI state machine (`update`, `step`), filtering and sorting,
    the text of every screen component, and the laws the UI keeps
    (`tui/laws.rs`);
  - `config.rs`, `text.rs` — settings and text helpers.
- `app/` — the program around it: terminal, HTTP, SQLite, files, clipboard.
- `tests/` — tests of the library on concrete values.
