# linear-mg

A command-line client for the Linear GraphQL API, with its decision logic
verified by Verus.

- `src/` — the verified library: the command model (`cli/`, with the runs
  of lookups behind `issues create` and `issues update` in
  `cli/issue_runs.rs`), the GraphQL documents (`graphql.rs`), lookups of
  teams, users, projects, milestones, labels and workflow states by what the
  user typed (`resolve.rs`), the paginator (`paginator.rs`), how HTTP and
  GraphQL answers become results (`client.rs`), errors and their messages and
  exit codes (`error.rs`), API-key precedence and the stored configuration
  (`config.rs`), the API's filter comparators (`filters.rs`), the issue
  filter and project/milestone rules (`issues.rs`),
  issue relations (`relations.rs`) and text helpers (`text.rs`).
- `app/` — the executable: argument parsing (clap), HTTP (reqwest), the
  configuration file (toml, dirs) and printing. It asks the library what to
  request and how to combine the answers.
- `tests/` — tests of the library on concrete values.
