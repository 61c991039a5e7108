# cardwire_tray

A tray applet and settings window for the Cardwire GPU manager, with its logic
verified in Verus.

- `src/` is the verified library: the GPU modes and the applet's toggle settings
  (`mode`, `applet`), the daemon's bus naming and GPU records (`daemon`), the tray's
  icon, tooltip, menu and event-loop state (`tray`), the settings window's state
  machine (`gui`) and what it shows (`view`), and the text and sorting helpers they
  rest on (`text`, `sort`).
- `app/` is the program around it: the bus proxies (zbus), the tray item (ksni), the
  settings window (iced), dialogs (rfd), notifications, the HTTP check for new
  releases, and reading and writing the settings file.
- `tests/` runs the library on concrete values.
