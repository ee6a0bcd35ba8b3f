# auto_clicker

A point-and-repeat mouse clicker for Windows: pick a point on any monitor,
then click it at a fixed interval, optionally for a limited time, from the
main window, a global hotkey (F2 picks, F6 starts and stops) or the tray
menu.

- `src/` is the library, verified with Verus: click modes and the click
  session (`clicker`), stored settings (`config`), settings text and its
  parsing (`text`), click and capture arithmetic and wide strings
  (`input`), the picker's decisions (`picker`), the tray menu and its
  commands (`tray`), the hotkeys (`hotkey`), the main window's state
  (`window`) and the window icon (`icon`).
- `app/` is the program around it: the egui window, the Win32 calls, the
  clicking, tray and hotkey threads, and reading and writing the settings
  file.
- `tests/` exercises the library on concrete values.
