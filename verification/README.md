# playground

The verified, discrete half of a box-layout UI element.

- `src/` (Verus): the layout axes and their planar form, the alignment
  directions applied to a node's children while they are painted, border
  visibility and the number of border sides on each axis, the fill color and
  whether a node paints a background quad, and the style enums with their
  defaults.
- `app/`: the element itself, written against gpui. All of its lengths,
  offsets and sizes are `f32`, so that arithmetic lives there and calls the
  library for each decision.
