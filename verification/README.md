# flingdlna

A DLNA media server and renderer discovery library, with the rules of the
protocols proved by Verus.

`src/` is the verified library:

- `server/` — the media library (`state`), ContentDirectory browsing
  (`content_directory`, `didl`, `description`), the HTTP decisions (`http`:
  control requests, `Range` headers, media plans), metadata (`metadata`,
  `cache`), scanning and watching rules (`scanner`, `watcher`) and the
  server's directory bookkeeping (`media_server`).
- `ssdp/` — SSDP messages: reading answers (`parse`), discovery decisions
  (`discovery`), announcements (`announce`), device descriptions (`xml`, read
  with quick-xml), which locations may be fetched (`fetch`), socket choices
  (`socket`) and the random delay (`fastrand`).
- `net/` — IP addresses and their text forms (`ip`), interface ranking
  (`selection`) and diagnostics (`diagnostics`).
- `wol`, `utils`, `config`, `error`, `types`, `cli`, `daemon`, `ffi` —
  Wake-on-LAN, durations, configuration, errors, core types, the command line,
  daemon requests and answers, and the C interface's values and queue
  requests.
- `tui`, `tui_library`, `tui_status`, `tui_actions` — the terminal
  interface: keys and list rules, the library browser (folders, sorting,
  breadcrumb), the player state that background results update, the
  requests each action sends and what each reply becomes, and the text of
  each panel (`tui_text`).
- `text`, `paths`, `urls`, `process`, `fixed` — text, path and URL helpers,
  and numbers written as Rust writes a double with fixed decimals.

`app/` is the program around it: command-line parsing, sockets, HTTP, files,
SQLite, the file watcher and the system's interface table.

`tests/` runs the library on concrete values.
