# security_code_analisys

An MCP server that scans code for security problems: Python with Bandit,
Rust projects with cargo audit and cargo clippy, and that applies clippy's
fixes to Rust projects.

- `src/` is the verified library. Each scan is a small state machine
  (`run.rs`): the library says which path to inspect, which command to run
  with which arguments, how the command's outcome is judged, and what report
  or failure a run ends with. `tools/` holds the scanner-specific steps and
  reports, `server.rs` the request parameters and the Rust project scan,
  `text.rs` and `number.rs` the text handling (trimming, line splitting,
  decimal numbers), `laws.rs` properties that span several steps.
- `app/` is the server itself: it speaks MCP over standard input and
  output, runs the commands, parses the JSON reports and drives each run.
