# launchdeck

A terminal dashboard for macOS launchd services (LaunchAgents, LaunchDaemons and
Homebrew services): it lists them, explains where each one comes from, plans the
`launchctl` / `brew services` command an action needs, and writes new user agents.

Layout:

- `src/` is the verified library. Every function carries a contract that Verus
  proves: the service model and its text, plist and `launchctl print` parsing,
  origin and safety classification, action planning (what runs, with or without
  `sudo`, and when it is refused), the create-service form and its validation,
  unified-log queries, and the dashboard's state machine (`App` and `handle_key`).
  `src/laws.rs` states the properties that span several functions.
- `app/` is the program around it: reading files and running commands, the
  terminal loop, and drawing with ratatui.
- `tests/` runs the library on concrete inputs.
