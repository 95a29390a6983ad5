# douyin_core

The core of the Douyin desktop downloader, written in Verus: every decision
the downloader makes is a verified function with a contract.

- `src/` — the verified library:
  - `download/` — selection tracking, resolver contracts, the download
    engine's request and retry policy, paging, the live-recording state
    machine and playlist parser, and the task service's decisions;
  - `config`, `firefox_cookie`, `user_files`, `path_guard` — configuration,
    cookie selection, files to delete and path safety;
  - `queries`, `query_builder`, `migration_plan`, `live_status` — the SQL
    the store runs and the status transitions it allows.
- `tests/` — tests of the library on concrete values.
- `app/` — a command-line program around the library: HTTP transfers,
  files, the configuration file and the Firefox cookie database.
