# world_column

The integer logic of sampling one world column for terrain generation,
verified with Verus.

- `src/geometry.rs`: integer positions, chunk addressing (division by the chunk
  size, rounding towards zero), squared distances (through `vek`), and the
  offset of a column from the chunk it drains into.
- `src/structure.rs`: the search for the nearest structure candidate, the choice
  of pyramid or dungeon at a site, the table of dungeon volumes, and the
  assembly of the nine structures near a column.
- `app/`: the floating-point side (noise, climate interpolation, colours) of the
  column generator, which calls the library for the integer decisions.
