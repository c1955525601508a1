# term_wm_ui_components

The layout, selection, scrolling and event-routing logic of the UI
components of a terminal window manager (stacks, grids, boxes, lists,
menus, tab bar, panel, dialogs, command palette, markdown viewer, scroll
views), written in Verus with its behaviour stated as contracts and proved.

- `src/` is the verified library. Each component computes what to draw
  (rects, rows of text, styles by role) and how to answer input, as plain
  values; the few calls into `ratatui`, `unicode-width` and `pulldown-cmark`
  stand behind trusted wrappers whose contracts are stated in their doc
  comments.
- `app/` paints those plans into a `ratatui` buffer, converts `crossterm`
  input events into the library's events, and does the scrollbar arithmetic
  that works in floating point.
- `tests/` runs the library on concrete inputs.
