# Slate

Slate is a GTK4 raster image editor. This crate holds its editing core as a
library verified with Verus, and the desktop application around it.

## Layout

- `src/` — the verified library (crate `slate`):
  - `document/` — the document model (layers, masks, filter stacks, colour
    configuration), the undoable commands and their bounded history with its
    laws (`laws.rs`), whole-document geometry edits (`edit.rs`) and the
    `.slate` project envelope and validation (`project.rs`).
  - `image/` — nearest-neighbour resize, canvas fit, quarter turns and
    mirroring (`transform.rs`), the noise/invert/grayscale filters
    (`adjust.rs`), opening a decoded image as the document (`loading.rs`),
    colour management and the export pipeline's settings.
  - `tile/` — render snapshots of a document (BGRA with masks applied) and
    the single-layer copy.
  - `editor.rs`, `window_actions.rs` — what the window's actions do to the
    document: filters, merge down, stroke commits, layer and mask commands,
    undo and redo.
  - `session.rs`, `layer_panel.rs`, `palette.rs`, `actions.rs`, `tools/` —
    titles, file and export names, panel labels and fingerprints, the
    command palette filter, the action and shortcut registries, tool kinds.
  - `float_bits.rs`, `text.rs`, `paths.rs` — `f64` bit-pattern truncation,
    decimal formatting and case folding, and `std::path` file names.
- `tests/` — tests of the library.
- `app/` — the GTK application: windows and dialogs, JSON project files,
  image decoding (the open dialog and a path given on the command line decode
  with the `image` crate; a file dropped on the window decodes with libvips,
  whose system library only the application links), libvips export and
  filters, and the floating-point compositing, brush painting and lasso
  rasterising.

Floating-point values held by documents (opacities, text sizes, crop
rectangles) are kept in the library as their IEEE 754 bit patterns.
