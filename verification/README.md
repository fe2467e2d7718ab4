# clipboard_manager

A clipboard history program whose decisions are verified with Verus.

The program watches the clipboard, stores each new text in an SQLite
database, shows the newest entries in a window with a case-insensitive
search, exports the history as CSV, and registers itself to start at login.

- `src/` is the verified library:
  - `monitor`: when a look at the clipboard yields a text to store;
  - `text`, `history`: the search rule and the filtering of the history;
  - `view`: the state of the history window and what each click asks for;
  - `export`: the CSV export, written through the `csv` crate;
  - `plan`, `content`, `autostart`, `startup`, `icon`: the files and commands
    that register the program at login or put a shortcut on the desktop,
    with the home directory taken from the `dirs` crate;
  - `store`: the database file and its SQL statements.
- `app/` runs the program: the clipboard (`arboard`), the database (`sqlx`),
  the tasks (`tokio`), the window (`eframe`), and the files and commands that
  the plans describe.
- `tests/` runs the library on concrete values.
