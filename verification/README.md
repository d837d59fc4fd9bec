# tuika

Host-owned interaction state for terminal user interfaces, verified with Verus.

The library keeps the state a terminal UI carries between frames and decides
what each input event does to it:

- `components::select` — a wrapping list highlight and a multiple-selection
  list with checked rows;
- `components::keyed_table` — single and multiple selection keyed by stable
  row identity, with a viewport that follows the selection;
- `components::window` — the visible slice of a long collection;
- `components::columns` — responsive column fitting for tables;
- `components::keyed_table_layout`, `components::select_list`,
  `components::form_layout`, `components::flex` — where a table, a list and
  a form paint within their area, and how a flex container measures itself;
- `components::md_flatten` — stacking rendered markdown blocks into lines,
  spacers, hyperlink runs and image rows;
- `components::form` — focus traversal for forms;
- `focus` — the focus ring and overlay input ownership;
- `routing` — staged delivery of one event to the surfaces of a frame;
- `runner` — the run loop's redraw state machine, tick and redraw timing,
  drag-selection decisions and configuration;
- `style`, `view`, `pointer`, `anim` — styling data, measurement requests,
  pointer-shape escapes, animation timing and keyframe ordering.

Every public function states its behaviour in `requires`/`ensures`, and the
properties that span calls (Tab then BackTab restores focus, a consumed event
stops the route, exit is final, …) are proved as public proof functions next
to the code they are about.

`app/` holds the host-side pieces that are not verified: floating-point
animation curves, the pointer-shape writer, and conversions to ratatui's
rectangles and styles.
