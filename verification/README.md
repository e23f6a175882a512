# oqtopus

The OQTOPUS command-line interface: it creates local OQTOPUS environments (`backend`,
`cloud-local`, `manager`) from the official templates, inspects them, installs their
components, and starts and stops their services.

The decisions live in a verified library (`src/`); the program around it (`app/`) reads the
environment, runs processes and downloads, and writes results.

- `cli` routes an invocation; `text` renders every result; `init` decides which environment
  to create and lays out its `.metadata` and directories.
- `metadata`, `config`, `environment` read and rewrite `.metadata` and `config/.env`.
- `backend`, `cloud_local`, `manager` decide each command and return a plan: the outcome to
  render, or the work to carry out.
- `lifecycle` runs service plans step by step; `operation_run` and `cloud_local::database` are
  the state machines of installs, removals, runtime builds, and the database.
- `versions` parses ref advertisements and lists versions; `fake_tool` holds the logic of the
  stand-in for external programs used when exercising the CLI end to end.
  Invoked under the name of one of those programs (a link to it named `curl`, `git`, ...), the
  executable runs that stand-in (`app/fake.rs`): a call without a configured fixture is refused
  with exit status 125.
