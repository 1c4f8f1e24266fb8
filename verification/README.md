# luma_translate

The verified core of a desktop selection translator: select text in any
application, click the floating button, and have an OpenAI-compatible chat
API translate it.

`src/` is a Verus library; every function in it carries a contract that Verus
proves:

- `geometry` – drag detection, window placement inside a monitor's work area,
  hit tests for the round native button and the application's own windows.
- `watcher` – the global mouse watcher as a state machine: drags, selection
  generations, when to dismiss the button and when to capture.
- `capture` – the clipboard-based capture (marker, copy, read, restore) as a
  state machine, and the decisions about captured text.
- `windows_capture` – the clipboard-sequence capture used on Windows, which
  gives a user's own Ctrl+C priority and only undoes its own copy.
- `copy_keys` – the synthetic Ctrl+C on Windows as a state machine: stale
  modifiers are released one at a time, and real keyboard input cancels it.
- `settings` – settings, their defaults, validation and merging of input.
- `translator` – the system prompt, request preparation, reply handling and
  the user-facing error texts.
- `icon` – decoding the button image (with the `png` crate) into
  premultiplied BGRA pixels.
- `commands` – small decisions of the shell (tray menu, autostart, closing).
- `text` – character-level string helpers (trimming, prefixes, search).

`app/` is the Tauri shell around it: windows, tray, HTTP requests, the
settings file, global input hooks and clipboard access.
