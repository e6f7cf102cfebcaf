# winctl_mcp

The decision-making core of a Windows desktop-control MCP server, written in
Verus: the functions in `src/` carry `requires`/`ensures` contracts that Verus
proves. What cannot be stated (the wall clock's reading) is named in the doc
comment of the function that reads it.

## Layout

- `src/manifest.rs` – macro manifests: validation issues, dry-run plans, the
  tool catalogue.
- `src/control.rs` – the desktop controller that arms, consents, revokes and
  guards sensitive actions, with its bounded event log.
- `src/observability.rs` – the connected-client registry, the bounded request
  history and the redacted request summaries.
- `src/http.rs`, `src/config.rs` – HTTP authorization, the security policy,
  the config file and the command line.
- `src/checks.rs`, `src/file_checks.rs`, `src/registry_checks.rs`,
  `src/crash.rs` – the predicates, failure messages, polling and redaction of
  the assertion tools.
- `src/desktop.rs` – dialog, browser, pointer and delay decisions.
- `src/capture.rs`, `src/diagnostics.rs` – capture-helper results, file
  names, video settings, the pixel comparison with a baseline image, OCR
  regions, build-tool names, build output scanning and run reports.
- `src/launches.rs`, `src/bindings.rs` – the registries of processes the
  server launched and of the windows it bound.
- `src/json.rs`, `src/text.rs`, `src/bounded.rs`, `src/pattern.rs` – the JSON
  model, string helpers, bounded histories and compiled regular expressions.
- `app/` – the program around the library: environment, command line, config
  file loading and parsing listen addresses as socket addresses.
- `tests/` – tests of the library on concrete values.

Calls into outside crates (`regex`, `chrono`, `sha2`) and into parts of std
that Verus does not specify sit behind small trusted wrappers whose doc
comments say what is assumed of them.
