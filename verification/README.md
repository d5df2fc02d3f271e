# ferrflow

Verified core of a release tool for monorepos and classic repositories.

- `src/` — the library, verified with Verus:
  - `text` — substring search, trimming, case folding and decimal rendering over `Seq<char>`;
  - `bot_token` — decisions of the hosted-bot OIDC exchange (settings, request URL,
    status mapping, announcements, git-config key listing), with the query-component
    encoder and its round-trip law;
  - `formats` — version files (JSON, XML, Go modules) as transformations of file contents;
  - `git::retry` — classification of git failures and the retry state machine with its
    attempt bound;
  - `monorepo::run::summary` — run hints, output layout and the step summary;
  - `telemetry`, `cli`, `release` — settings, command dispatch and release options.
- `app/` — the command-line program: argument parsing, environment, files, processes,
  HTTP and logging around the library.
- `tests/` — tests of the library.
