# chat2db_storage

Durable product state of Chat2DB: datasources and their secrets, provider profiles, agent sessions
and runs, retained query results, transfers, the operation log, saved consoles, the MySQL workspace
and Community dashboards.

`src/` is the library. It holds the rules of the store as executable Rust with `requires` and
`ensures` contracts that Verus proves: what is refused and with which error, what a row or a file
holds afterwards, what a failed commit turns out to have done, what recovery keeps and removes.
Functions take what was read as plain values and return what is to be written; nothing in `src/`
touches a disk, a clock or the database of the store. Which rows are read for a request, in which
transaction, and what the database itself enforces is left to the SQL in `app/`.

| Module | What it decides |
| --- | --- |
| `startup`, `storage` | migrations, durability settings, limits |
| `secret`, `vault` | vault references, staging, compensation and cleanup of secrets |
| `datasource`, `provider` | records under optimistic revisions |
| `agent` | sessions, messages, runs, compaction, tool permissions, write fences, result handles |
| `result` | framing, quota, writing, paging, validation, recovery and purge of retained results |
| `transfer` | tasks, artifacts, pruning and recovery |
| `operation_log`, `saved_console`, `mysql_workspace`, `community_dashboard` | workspace records |
| `listing`, `catalog`, `query`, `row` | order, paging and search that the records share |
| `text`, `number`, `clock`, `digest`, `identity`, `json`, `sqlite` | values that the rules are stated over |

Properties that span several functions are public proof functions named `law_…`, next to what they
are about or in a module's `laws.rs`.

`app/` is ordinary Rust around the library: it opens the data directory, runs the SQL, reads and
writes files, and calls the vault. `tests/` runs the library on concrete values.

What is taken on trust is small and marked: SHA-256 (`digest`), UUIDs (`identity`), JSON text
(`json`), SQLite's JSON functions (`sqlite`), zeroing of secrets (`secret`), and a few functions of
the standard library (`text`, `clock`).
