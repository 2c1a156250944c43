# driftwm

The decisions of a Wayland compositor with an infinite canvas, written in Verus.

- `src/` is the library. It holds the window manager's state and decides what input
  events, pointer motion, presses, scrolling, keys, window moves and crashes of XWayland
  lead to. Every function states what it decides, and Verus proves it. The public proof
  functions named `law_...` state what holds across functions.
- `app/` is the shell. It talks to devices, clients and the screen through smithay,
  describes what it finds in the library's plain values, and carries out the effects that
  come back. Its `Host` trait names what it needs of the compositor around it.
- `tests/` runs the library on concrete values.

Coordinates are doubles. The library carries them by their bits: it compares and bounds
them, and leaves arithmetic on them to the shell.
