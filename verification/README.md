# gaze

The verified core of Gaze, facial authentication for Linux, and its
command-line client.

- `src/` is the library, verified with Verus: the configuration and its
  validation, camera-source resolution, the IR emitter device lookup and
  UVC control profiles (the table of researched emitter profiles is generated
  from data kept outside these sources and ships empty here, so emitters are
  found by the face-authentication control probe), capture-status and enrollment wire formats, the
  daemon's claim registry and verify/enroll session state machines, SSH and
  lid-closed safeguards, the face template index and eviction order, the PAM
  module's decisions, the health report of `gaze doctor`, and the CLI's
  messages and uninstall plan.
- `tests/` exercises the library on concrete values.
- `app/` is the `gaze` command: argument parsing, the system-bus client,
  terminal output and the facts `gaze doctor` gathers from the system.
