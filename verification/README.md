# dialog

The decision logic of an unstyled modal dialog, verified with Verus.

- `src/handle.rs` — the shared open state of a dialog and who hears of changes.
- `src/dialog.rs` — dialog configuration, routing of open-state changes, and the
  ordered work of cancel, confirm and backdrop dismissal.
- `src/trigger.rs` — what a press on a dialog trigger does.
- `src/scope.rs` — the close-button scope that nests across element phases.
- `src/keymap.rs`, `src/footer.rs` — key bindings and footer actions.
- `src/laws.rs` — properties that span several operations.
- `app/` — the gpui elements that own closures and framework calls and carry out
  the `Effect`s the library hands back.
