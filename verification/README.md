# codex_peek

The decision and layout core of a Windows tray and taskbar monitor for Codex
usage limits, written in Verus. Verus checks every function under `src/`
against its contract (a few private helpers only state what their callers
need, and the standard-library calls behind `external_body` wrappers are
trusted); the Win32 calls stay outside and hand the library plain values.

- `src/windows/` holds the window logic: taskbar attachment and its rollback,
  widget and popup layouts, the profile dialogs' state machines and layouts,
  the painters that restore every device-context setting they change, the
  dialog's font and brush ownership, message routing, and the timers,
  autostart command and lifecycle rules.
- `src/localization.rs`, `src/domain.rs`, `src/profile_label.rs` and
  `src/text.rs` hold the shared vocabulary: languages, catalog text, label
  validation and string helpers.
- The laws of the library are public proof functions beside the code they
  speak of, named `lemma_*`.
- `app/` holds what Verus does not see: floating-point rendering math, the
  per-thread guards of the UI thread, and the loop that applies a dialog's
  new look while other window messages may arrive.
- `tests/` exercises the library on concrete values.
