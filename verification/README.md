# grokipedia

The verified core of a multi-tab desktop shell for grokipedia.com.

- `src/` is the library, checked by Verus:
  - `tabs` — the registry of open tabs, their identifiers (`tab-1`, `tab-2`, ...),
    the active tab, and the laws that identifiers are never reused;
  - `navigation` — what a tab does with an address it is about to load
    (load it, hand an outside link to the system browser, leave full screen);
  - `menu` — menu items, full-screen requests and the Escape key;
  - `layout` — physical bounds of the tab views and the sidebar;
  - `records` — history, bookmark and saved-tab records, the row form of a saved
    tab, and how unreadable rows are left out of listings;
  - `clock` — timestamps in seconds since the Unix epoch;
  - `text` — decimal rendering and string comparisons.
- `app/` is the Tauri application: windows, webviews, the SQLite database and the
  menu, calling the library for every decision.
- `tests/` exercises the library on concrete values.
