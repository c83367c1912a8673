# codex_limit_monitor

A menu-bar monitor for Codex usage limits, with its core verified in Verus.

- `src/` is the verified library: the model of what the Codex app-server
  reports (`limits`), the reset-credits endpoint's reply (`reset_credits`),
  the decisions of a fetch (`fetch`), the refresh schedule (`schedule`), the
  ascending sort of expiry times (`sorting`) and the library's laws (`laws`).
- `app/` runs the program: it starts the app-server, reads the login file,
  asks the reset-credits endpoint over HTTPS, and drives the tray icon and
  window; it hands the library plain values and takes its decisions back.
- `tests/` exercises the library on concrete values.
