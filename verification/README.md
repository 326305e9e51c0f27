# rush

A project manager for the command line: it registers projects and their
languages, keeps todos per project, stores secrets under a master password,
and runs as a small TCP daemon that shell functions (`rush`, `dash`) talk to.

## Layout

- `src/` — the library, verified with Verus. Every function carries a
  contract; the laws the tool relies on are proof functions.
  - `text` — decimal rendering, trimming, byte parsing.
  - `auth` — nonce text form, ChaCha20-Poly1305 and base64 around stored
    secrets, Argon2 master password checks.
  - `editor`, `projects_ui`, `todos` — the editable forms of todos and
    projects, the todo list and its save plan, exported files, and the search
    for the directory to export into.
  - `cli` — the commands, their argument form, and what each asks the tool
    to do.
  - `server`, `shims`, `config`, `paths` — the daemon's port, command lines
    and log relay; the shell shims; where the tool keeps its files.
  - `database`, `models`, `logger`, `fonts`, `exceptions`, `ui` — what the
    tool makes of query results, its records, table options, icon code
    points, warnings and logged outcomes.
- `app/` — the program around the library: argument parsing, the SQLite
  database, the tokio daemon, prompts, tables and files.
- `tests/` — tests of the library.
