# windex

A macOS menu bar window manager: global shortcuts snap the focused window to
halves, thirds and quarters of the screen, centre or maximize it, or move it
to the next or previous display, with a short animation.

- `src/` is the library, verified with Verus: the grid cell of each layout
  action, the hotkey grammar and the keyboard tracker that turns key events
  into actions, the choice of target display, the configuration defaults, the
  cheat sheet page, the LaunchAgent plist, the menu glyph and the menu's
  commands.
- `app/` is the program around it: the Accessibility, Core Graphics and
  AppKit calls, the keyboard listener thread, the menu bar item, files and
  processes, the animation clock, and the floating-point frame arithmetic.
- `tests/` runs the library on concrete values.
