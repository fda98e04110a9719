# Bauer Browser core

The decisions of a small, controlled web browser, written in Verus and proved against
their specifications:

- `src/browser.rs` — the browser as a state machine: tabs (open, close, cycle, switch),
  page modes, reader mode, bookmarks and summary requests. Each toolbar command and each
  window or page event yields the next state and the list of actions the window performs.
  The laws of tab handling (new tab shown, neighbour shown after closing, last tab returns
  home, next/previous undo each other, each tab keeps its mode) are proof functions there.
- `src/filter.rs` — the tracker domain list and the navigation filter.
- `src/history.rs`, `src/bookmarks.rs` — which visits are kept and how history and
  bookmarks are read back and changed.
- `src/scripts.rs`, `src/urls.rs`, `src/text.rs` — the exact texts sent to the toolbar and
  pages, address-bar normalisation, escaping.
- `src/agent.rs`, `src/logger.rs`, `src/config.rs`, `src/layout.rs`, `src/resource.rs` — the
  agent requests, log lines, settings, window layout and memory totals.

`app/` holds the window, the web views, file and network access around the core.
