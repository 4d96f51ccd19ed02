# wcad

The document and interaction logic of WCAD, a 2D drafting application for
the Linux desktop, verified with Verus.

## Layout

- `src/` — the verified library.
  - `domain.rs` — entities, layers and dimension anchors. Geometry and
    colours are type parameters, so the library never holds floating-point
    values.
  - `state.rs` — the editor state, its mathematical view, and the undo/redo
    history (`push_undo`, `undo`, `redo`, `delete_selected`).
  - `selection.rs` — deleting a selection: descending sort of the selected
    indices and removal of the entities at those positions.
  - `editing.rs` — tool switching, clicks, keyboard commands, layer and
    entity edits, the property panel and the rubber band.
  - `display.rs` — which colour an entity is drawn or printed in, and new
    entity identifiers.
  - `naming.rs` — decimal formatting for layer names.
  - `history_laws.rs` — laws of the history: undo/redo round trips, undo
    after an edit, many undo steps, deletion keeps the unselected entities.
- `tests/` — tests of the library.
- `app/` — the GTK application: geometry in floating point (bounding boxes,
  distances, snapping), SVG/DXF/PNG export, DXF import, tessellation, GPU
  rendering, printing and the window, built on the library's decisions.
