# cram

A local AI gateway for editors: it accepts the static bearer token an editor
stores and re-signs requests for Vertex AI. This crate is the verified core
of the `cram` command, written in Verus; `app/` is the program around it.

## Layout

- `src/config.rs` — the config and credentials files, the environment, and
  how they resolve into the settings the gateway runs with
  (CLI flag > environment > config file > default).
- `src/aliases.rs` — the model alias table (a map held as pairs, each alias once).
- `src/update.rs` — the cached release check: when to ask again and when to
  show a notice (SemVer ordering comes from the `semver` crate).
- `src/service.rs` — the systemd user unit and the steps of `cram service`.
- `src/startup.rs` — key file checks, addresses, credential file permissions.
- `src/banner.rs` — the start-up banner (colours from `owo-colors`).
- `src/dashboard.rs` — the request records and the bounded history.
- `src/paths.rs`, `src/text.rs` — path joining and character-level text work.
- `app/` — `main`, argument parsing (clap), file and network I/O, the HTTP
  server and dashboard endpoints.
