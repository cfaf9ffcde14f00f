# codex_tui

The start of a terminal program for coding sessions: what it does between the
command line and the running application. `src/` decides, and every decision is
verified with Verus; `app/` does what has been decided.

- `startup` leads from the command line over the configuration to the session,
  `session` from the terminal over onboarding and the choice of a session to the
  application. Both are machines: `work` names what is to be done next, `advance`
  takes in what came of it.
- `overrides`, `screens`, `selection`, `session_id`, `cwd` and `rollout` hold the
  single decisions: permissions and overrides, which screens are shown, which
  session is opened, and in which directory.
- `startup_laws` and `session_laws` state what holds of every run. Laws about one
  decision stand beside it.
- `text` and `paths` hold what is said of texts and paths, `settings` the parsed
  settings that are only carried through.

`app/` drives the two machines. Configuration, login, the terminal and the store
of sessions come to it through the trait `Services`.
