# directionlib

Direction types for 3D scenes — the six view directions, signed and unsigned axes,
a one-byte set of directions, and a bundle of six values indexed by signed axis —
with their behaviour stated as contracts and proved with Verus.

## Layout

- `src/direction.rs` — `Direction`: numeric representation, names, reverse.
- `src/axis.rs` — `SignedAxis` and `Axis`: reverse, sign, absolute value, and the
  right-handed (facing -z) and left-handed (facing +z) mappings between signed axes
  and directions, with the laws they keep (inverse bijections, respect of opposites,
  agreement of the two handednesses on X and Y).
- `src/direction_flags.rs` — `DirectionFlags`, a set of directions in the bits of a
  byte, modelled as a `Set<Direction>` plus the two bits that belong to no direction;
  the exclusive-axis key handling, per-axis signs, lowest direction, and an iterator
  over the directions in ascending order.
- `src/axis_set.rs` — `SignedAxisSet<T>`: six values indexed by `SignedAxis`, with
  element-wise operators, mapping and iteration.
- `src/index.rs` — traits for types indexed by axes or directions.
- `src/conversions.rs` — the enums into their numeric representation.
- `app/lib.rs` — the floating-point (`f32`, `glam`) forms of the per-axis signs.

The tests under `tests/` exercise the library on concrete values.
