# window_switcher overlay painter

The app-switching overlay of window-switcher (Alt+Tab) shows one icon per
app, a rounded selection box under the selected icon and the selected app's
name below it.

- `src/` — the verified library: window layout on the monitor
  (`layout::Coordinate`), the click test (`layout::find_clicked_app_index`),
  the scaled icon strip (`icons::IconsLayout`), theme colours (`theme`), and
  the painter's show/hide state with the full plan of one paint
  (`painter::PainterState::paint`).  The laws relating them (click areas match
  what is drawn, the overlay is centred and fits the monitor, the window is
  shown once per appearance, the label contrasts with the background) are the
  `lemma_*` proof functions.
- `app/` — the Windows side: GDI/GDI+ drawing of a plan, window visibility,
  cursor, DPI and monitor queries.
- `tests/` — concrete checks of the library.
