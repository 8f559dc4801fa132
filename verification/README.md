# hyperspell_desktop

The verified core of the Hyperspell desktop client, a menu-bar app that
installs, supervises and gates the Hyperspell sync daemon.

- `src/` is the library, written in Verus: where the daemon's files live,
  the consent toggles read from and written to `config.toml`, the sign-in state,
  which activity-log lines to show, the bundled-runtime layout, the venv
  setup and launch sequences (as state machines the shell drives), the
  supervisor's bookkeeping, the `PATH` links and shell-rc line, and the
  uninstall plan. Contracts state each function's result over what the
  function is given; where a function looks up the home directory itself,
  its contract only says the result is the one for some home, and a
  companion that takes the home as an argument is exact. What the `toml` and
  `serde_json` calls compute (a parse, a rendering and its error text, which
  lines are JSON objects) is named rather than spelled out, so a contract
  that goes through one of them is exact only up to that name; in
  particular nothing states that `toml` parses back what it rendered. Paths,
  the home directory among them, are held as UTF-8 text. The `law_*` proof
  functions state what holds across calls.
- `app/` is the Tauri shell around it: window, tray, commands, and every
  file, process and event the library plans or decides on.
- `tests/` exercises the library on concrete values.
