# adb_agent

The decisions of `adb-agent`, a command-line tool that wraps the Android Debug Bridge in a
session-oriented interface for agents, as a library verified with Verus; and the program around it.

A command is carried out in turns. Each turn asks for one action (run adb, read the session file,
write a file), and the command goes on with the event that came of it, until it is answered.
But for a look at the clock, nothing in the library performs I/O: what a command asks for, and what
it answers, is proved from its call and the events alone.

- `src/` is the library. `dispatch.rs` takes a command from its call to its answer; `adb.rs` holds
  one adb command with its retry and the recovery of the adb server; `session.rs` and
  `session_commands.rs` the named sessions; `imaging.rs`, `preview.rs` and `shot.rs` the
  screenshots; `ui.rs`, `dump.rs` and `ui_commands.rs` the user interface; `laws.rs` what holds of
  every command.
- `tests/` runs the library.
- `app/` is the program: the command line, the processes, the files and the JSON.
