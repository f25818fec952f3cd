# BrewKeep

A Windows tray utility that either holds the screen awake or forces it off
after a short timeout, and writes the user's monitor timeouts back when it
ends.

The decisions of the program are a verified library:

- `src/state.rs`: the modes, the menu and its entries, and what a change of
  mode asks of the system (power requests, the force-sleep timeout and the
  state file written before it, the timeouts found at start written back when
  `Paused` follows a forced timeout, which entries are enabled), with the
  proof that the system follows the mode: the display is held awake exactly in
  `Hold`, a forced timeout stays in force through `Hold`, and the user's
  timeouts are in force in `Paused`.
- `src/power.rs`: the requests for `SetThreadExecutionState`, the calls of the
  power scheme API and how a sequence of them is run and stops at the first
  failure, the snapshot of the timeouts and its restore, and the state file
  (written and read back, with the proof that reading gives back what was
  written).
- `src/decimal.rs`: decimal numbers as `u32::from_str` reads them.
- `src/autostart.rs`: the `schtasks` command lines, the UTF-16 value written
  under the registry key `Run`, and the steps of switching auto-start and of
  asking whether it is on.
- `src/tray.rs`: the tray icon (the largest image of an ICO file, read with the
  `ico` crate) and the handling of each event of the event loop.
- `src/bmp.rs`: the check that a BMP image does not index beyond its colour
  table, which decoding does not check.

`app/` is the program around it: the Win32 calls (`windows`), the files, the
processes, and the tray and its event loop (`tray-icon`, `tao`). It performs
what the library asks for and hands the results back.
