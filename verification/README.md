# simdesk

A small 2D-simulation toolkit with a terminal desktop, written in Verus.

`src/` is the verified library:

- `error` — the validation and calculation errors of quantities.
- `traits`, `ops` — the vocabulary of quantities (`NonNegative`,
  `Validated`, `Bounded`) and their checked and saturating arithmetic, for
  the primitive integers and for any validated quantity; `ops::Delta`, a
  signed adjustment of a non-negative quantity, with the laws of its
  arithmetic and order.
- `layout` — rectangles of terminal cells, computed by `ratatui`.
- `topbar` — the menu bar as a state machine over clicks, hovering and keys.
- `desktop` — the icon grid, where an icon's glyphs and name go in its
  cell, the selection among icons, and icon names cut to fit.
- `shell` — the shell's menus, frame timing and its answers to menu actions
  and to the shown app.
- `ascii_art` — a grid of glyph cells and the integer sampling of an `image`
  RGB buffer that fills it.

`app/` holds what does not fit a proof: the `f32` physical quantities and
formulas, the floating-point image renderer, and the terminal event loop
that drives the verified state machines.

`tests/` runs the library against concrete cases.

Not carried over: the procedural world generator (Perlin-noise thresholds
in `f64` over a map model that is not part of this build) and the
localization of menu labels, which loads embedded locale bundles; the
terminal front end shows fixed English labels instead.
