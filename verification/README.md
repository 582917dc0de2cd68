# agentenv_snapshot

The snapshot layer of a sandbox service, verified with Verus.

- `src/` is the library. It decides and computes: manifests, squashing, cold-boot startups, the
  pages of a listing, the answers of the API and what the command line prints. Every function states what it returns, and
  the `*_laws` modules state what holds of whole runs.
- `app/` is ordinary Rust around it: repository, disk, guest processes, clock, JSON and terminal.
- `tests/` runs the library on concrete values.

Two outside functions are taken on trust, each in a wrapper with a contract of its own:
`chrono::DateTime::from_timestamp` in `src/time.rs` and `uuid::Uuid::now_v7` in `src/staging.rs`.

A squash and a startup alternate between decisions and work outside the process. Each is a state
machine: `begin` gives its first state, `action` says what is to be done next, and `advance` takes
what came of it.
