# walli

The rules of Walli, a menu-bar app that rotates the desktop wallpaper from
Unsplash and Bing, as a library verified with Verus.

- `src/` — the verified library: settings and their parsing, the scheduler's
  decisions, the source pool with cooldowns, the Unsplash and Bing answers,
  the content-addressed cache names, settings patches, and the keyring outcomes.
- `tests/` — tests of the library on concrete values.
- `app/` — the Tauri application around it: windows, tray, SQLite, HTTP and
  the desktop wallpaper.
