# game_time_manager

Tracks how long the full-screen game in front has been running and shows it
in a small overlay window.

- `src/` is the verified library (Verus): the game and session records, the
  watcher's and the monitor's decisions, the ignore list (through `regex`),
  the run-time text, the overlay's reactions and the Windows provider's
  decisions on what the system reported.
- `app/` is the Windows program around it: it reads `config.toml`, queries
  the shell, the window manager and the process list, and drives the
  native-windows-gui window, handing plain values to the library.
- `tests/` runs the library on concrete values.
