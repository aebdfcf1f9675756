# beamish

The verified core of Beamish, a Quick Share desktop app for Linux, and of its
privileged `beamish-vif-helper`.

- `src/` — the library, verified with Verus:
  - `text.rs`: prefix, equality, last-separator and Unicode-whitespace trimming over `Seq<char>`;
  - `vif.rs`: `apN`/station name validation, command-line parsing, and the helper's
    command sequence (stale delete, add, bring up, rollback), with its safety laws;
  - `devices.rs`: turning discovery events into the nearby-device list (ids stay unique);
  - `backend.rs`: the transfer backend as a state machine over library messages and UI
    commands (discovery pausing/resuming, consent, outbound PIN, "Ready" reset generation);
  - `ui.rs`: status headline and hint, file/host/download labels, PIN label, and which
    command each control sends.
- `tests/` — scenarios on concrete values.
- `app/` — the GUI (Rinch), the Quick Share backend plumbing (rqs_lib, tokio), the file
  dialogs (rfd), and the helper's process execution; it performs what the library decides.
