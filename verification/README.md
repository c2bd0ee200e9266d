# elevo_messenger

The desktop shell of Elevo Messenger, a Matrix client: the rules that decide
which in-app windows and webviews are opened, how they are labelled and
titled, which scripts are injected into them, how messages are routed between
the main window and child webviews, how the side panel is laid out, what the
OAuth login window does with its redirect, and what the tray icon shows.

- `src/` is the library, written in Verus and verified: every public function
  states its result in its contract, and the laws of the library are proof
  functions beside the code they speak of.
- `tests/` runs the library on concrete values.
- `app/` is the Tauri application around it: commands, windows, the tray,
  fonts and files. It decides nothing itself; it asks the library.

Modules of `src/`: `labels`, `domain`, `weburl`, `json`, `scripts`,
`room_map`, `theme`, `routing`, `commands`, `layout`, `tray`, `icon`,
`oauth`, `shell`, `menu`, `updater`, `text`.
