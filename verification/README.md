# restore_drill_attestor

A verified core for restore drills: a drill file names a disposable target,
the commands that prepare, restore and clean it up, and recovery checks. The
library decides whether a drill file is safe to run, which command runs next,
whether each check passed, and what the attestation of the drill records.

- `src/config.rs`: the drill file's types and the rules it must meet.
- `src/checks.rs`: command results and the verdict of each kind of check.
- `src/drill.rs`: the drill as a state machine, from confirmation to cleanup.
- `src/attestation.rs`: attestation ids, fingerprints, timestamps.
- `src/demo.rs`: the bundled demo's drill file.
- `src/text.rs`: character-level string helpers.
- `app/`: the command-line program, which runs the commands through the
  shell, reads the clock and writes the JSON attestation.
