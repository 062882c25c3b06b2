# sntry

A command-line client for Sentry (issues, events, releases, comments and
external issue links), written as a library verified with Verus and a thin
program around it.

- `src/` is the verified library: the data models, the options and the query
  parameters of each request, the configuration precedence (flags, then the
  environment, then the configuration file, then defaults), the command
  dispatch, Linear URL parsing, paging cursors, attachment selection and sizes,
  and the exact text and colours of every table and detail view. Calls into
  `chrono`, `colored`, `tabled` and std's path handling stand behind small
  trusted wrappers whose contracts say what the library relies on.
- `app/` is the program: clap's command line, the HTTP client, the
  configuration file, JSON output with serde, and printing.
- `tests/` runs the library on concrete values.
