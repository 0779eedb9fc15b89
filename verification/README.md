# lazyjira

A terminal user interface for JIRA, with its logic verified by Verus.

## Layout

- `src/` is the verified library. Its functions have `requires`/`ensures`
  contracts over a mathematical model (spec functions, `Seq`, `Map`, `int`); the
  few whose result rests only on the clock or the keyring (`unix_now`,
  `has_token`) state nothing of it. The
  laws of the library (what an operation keeps, what a second call undoes) are
  public proof functions named `law_*`.
  - `config`: profiles, settings and their validation.
  - `api`: issue types, API errors and their classification, Basic Auth headers
    and the tokens kept in the OS keyring.
  - `cache`: cache entries, their expiry, file names and eviction order.
  - `commands`: the command registry and its fuzzy search.
  - `events`: keys, key bindings and the hints shown for each context.
  - `history`: the most-recently-used list shared by the command palette and
    the JQL history.
  - `ui`: the state machines of the components (text input, dropdown, pickers,
    command palette, notifications, dialogs, ...) and the placement of dialogs
    on the screen.
  - `error`: the application's errors, their messages and suggestions.
  - `app`: the application's state machine: one key press or tick in, the next
    state out (`key_handled`, `tick_handled`), the profile and JQL operations,
    and the decisions of loading the issue list (cache first, then the server).
  - `profile_form`: adding and editing profiles, with their tokens.
  - `paths`: file locations as a root directory and the names below it.
- `app/` is the program around the library: the terminal and its event loop,
  drawing with ratatui, reading and writing files, and serde copies of the library types
  for the configuration file and the cache on disk.
- `tests/` runs the library on concrete values.

Calls into outside crates (the keyring, Base64, `dirs`, the HTTP status table)
stand behind small trusted wrappers whose doc comments say what is assumed of
them.
