# recomp

Reusable application components, verified with Verus.

- `src/` is the verified library:
  - `postgres::config` — the Postgres configuration builder: connection
    overrides stay absent unless set, pool values default, and a build fails
    exactly when the minimum connection count exceeds the maximum.
  - `postgres::migration` — migration naming: description normalization,
    `{version}_{description}.up.sql` / `.down.sql` file names, and the error
    classification used when the files are written.
  - `postgres::component` — the health codes of the Postgres component, its
    health check, and the state machine of one run.
  - `component` — health probes and the rule for waiting until healthy.
  - `text` — character classes, trimming and decimal rendering.
- `app/` is the runtime around it: the component traits, the Postgres pool
  component driving the run state machine, `sqlx` option mapping, migration
  files on disk, running migrations, and a Postgres test container.
- `tests/` exercises the library.
