# serve_here

Serve any local directory over HTTP: a directory browser, automatic `index.html`, safe
redirects for non-ASCII paths, a live statistics dashboard, and background servers managed
with `--daemon`, `--stop` and `--status`.

## Layout

- `src/` is the library, verified with Verus. Every public function states its result in
  its contract; local dates are stated up to the machine's time zone offset.
  - `serve.rs`: how a request for a path is served, as a state machine. The caller performs
    the file system work it asks for (canonicalize, stat, list, open) and hands back what
    it found. Paths it asks to read always lie under the served root.
  - `listing.rs`, `templates.rs`: the directory listing page, its order and breadcrumbs.
  - `metrics.rs`: counts of requests by route, client, method and status, with their
    bounds and top lists; `stats.rs`: the dashboard page.
  - `daemon.rs`: PID files, and the decisions and messages of starting, stopping and
    listing background servers.
  - `error.rs`, `cli.rs`, `network.rs`, `server.rs`: replies to errors, the command line,
    the announced addresses, the dashboard's paths.
  - `text.rs`, `encoding.rs`, `format.rs`: decimal numbers, trimming and comparing text,
    HTML escaping, percent-encoding, sizes, dates and content types.
- `app/` is the program around it: the HTTP server (axum and tokio), the file system and
  process work, the machine's resource figures, and the JSON of the dashboard.
- `tests/` runs the library on concrete values.
