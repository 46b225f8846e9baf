# proximityd

Presence detection by nearby wireless identifiers: parties own devices, devices
carry identifiers (Bluetooth and Wi-Fi addresses, IP addresses, host names), and
a debounced detection engine turns scan results into enter and exit events.

## Layout

- `src/` is the library, written in Verus: every function carries a contract
  and is proved against it.
  - `detection/` holds the debounce state machine, the engine and the
    decisions of the daemon's scan and detection loops; the laws it
    keeps (no entry before the debounce window, one exit per entry, unknown
    devices ignored) are proof functions in `detection/laws.rs`.
  - `config/` models the presence, device and application configuration, its
    normalization and the default files written on first run.
  - `discovery/` keys signal time stamps to five-minute windows, groups the
    signal log into them, counts how often
    identifiers occur together and partitions the linked identifiers into
    clusters.
  - `cli/` holds the decisions and texts of the command line and of the
    terminal interface: modes, output formats, paging, exports, installation
    reports, key handling of the editors.
  - `agent_settings.rs` edits the agents' JSON settings to register the
    session-start hook.
  - `health.rs`, `hooks.rs`, `location.rs`, `state.rs`, `error.rs` and
    `text.rs` hold the health verdicts, the agent session context, location
    resolution, the presence state table, structured errors and the string
    routines the rest is built on.
- `tests/` runs the library on concrete values.
- `app/` is the program around the library: argument parsing, files, the
  database, the terminal and the logging set-up.

Verify with `verus` on `src/lib.rs`.
