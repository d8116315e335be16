# vibar

A configurable Wayland status bar for sway, built on GTK4 and
`gtk4-layer-shell`: workspaces, focused window, binding mode, clock, CPU,
memory, disk, temperature, battery, backlight, PulseAudio volume, MPRIS
players, a StatusNotifier tray and shell-command modules, one bar per monitor.

## Layout

- `src/` is the library, verified with Verus: configuration defaults and
  checks, the parsers for `/proc` and sysfs text, the label templates and
  Pango escaping, the choice of devices and players, the tray watcher and
  menu model, the shared-backend registry and update fan-out, the window plan
  per monitor, and the decisions behind every control (brightness steps,
  volume popover rows, carousel ticks, click fallbacks).
- `app/` is the program around it: the GTK widgets, the worker threads, file
  and process access, D-Bus, sway IPC, udev and libpulse.
- `tests/` runs the library on concrete inputs.

The laws the library keeps (one window per monitor, stable sorting, unique
tray registrations, what a subscriber is replayed, and more) are public proof
functions next to the code they speak of.
