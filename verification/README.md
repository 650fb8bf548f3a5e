# vectorizer

Scenes of colored 2D outlines, drawn through one or more GPU layers.

- `src/` is the verified library: color schemes and dual colors, shapes and
  their outlines, scenes with their redraw state, the paint style of every
  shape, the plan that spreads a vectorizer's scenes over its layers, and
  the layer that makes its rendering context once and keeps it.
  Coordinates and stroke widths are carried as the bit patterns of their
  `f32` values, so the library itself holds no floating-point numbers.
- `src/laws.rs` states and proves the properties that hold across
  operations.
- `app/` holds what talks to Metal and Pathfinder: view metadata with
  floating-point sizes, draw commands, backend contexts, and the
  `Draw` trait that runs the library's draw plan.
