# smartboard

The verified core of a touch whiteboard, written in Verus.

- `src/pages.rs`: pages of the board, switching between them, adding and
  loading pages, with the laws that page operations keep what the user sees.
- `src/screenshot.rs`: layout of a padded texture copy and its conversion to
  packed RGBA bytes.
- `src/logging.rs`: timestamps and the lines written to the log file and the console.
- `src/display.rs`: dark or light scheme, and what the window mode sets the window to.
- `src/input.rs`: keyboard shortcuts and what touches do with each tool.
- `src/touches.rs`: one pointer record per touch, kept apart from the other touches.
- `src/frame.rs`: which panels a frame draws, the pointer pass-through, waiting.
- `src/icon.rs`: decoding the application icon with the `image` crate.
- `app/`: the program around it: window, event loop, dialogs, log file.
