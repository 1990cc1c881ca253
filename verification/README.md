# eardogger

Eardogger is a movable bookmarks service for reading serialized content on
the web. A dogear is identified by a URL prefix and points at the most
recently marked page under it; sending a URL updates every dogear whose
prefix matches it.

## Layout

- `src/` is the verified library: URL matching and prefix normalization,
  pagination, form-field cleaning, username and password rules, token
  scopes and checksums, session lifetimes, the migration check, the
  bookmarklet minifier, CSRF and CORS decisions, login redirects, error
  reporting, command-line parsing and configuration assembly. Every
  function carries a contract that Verus proves; `src/laws.rs` states and
  proves the properties that span several functions. `src/thirdparty.rs`
  holds the trusted contracts of the calls into other crates (url, regex,
  bcrypt, sha2, base16ct, rand, uuid, html-escape, time) and into std.
- `tests/` exercises the library on concrete values.
- `app/` is the server around it: the axum router and handlers, the sqlite
  queries, templates, cookies, logging and the main loop.

## Running the server

The server reads `eardogger.toml` (or the file given with `--config`). It
expects, next to the directory named by `assets_dir`, a `templates/`
directory with the page templates and a `bookmarklets/` directory with the
bookmarklet templates; database migrations are read from `migrations/` in
the working directory, and an optional `VERSION.txt` there holds the
commit sha and the build date on its first two lines. `--migrate` runs the
pending migrations, `--status` (or `--check`) prints the migration check
and `--version` prints the commit and build date, each instead of
serving. Only the HTTP serving mode is available.
