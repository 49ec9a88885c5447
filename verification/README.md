# bleedthorn

A procedural city generator for a Godot game: materials, buildings made of
floors, uniform wall layouts, and `MapMap`, an id-keyed map of things placed
in the world.

- `src/` is the verified library (Verus). Coordinates are held as the bit
  patterns of single-precision floats (`HashFlt`), which makes positions
  comparable and hashable; the library never does float arithmetic.
  - `map.rs`: `MapMap`, its abstract model (entries by id plus the id
    counter), the id probing order, and the laws about adding entries.
  - `building.rs`: floor schemes, building attributes, the uniform wall
    layout of a floor, and building generation.
  - `material.rs`, `statistics.rs`, `construction.rs`, `item.rs`, `flt.rs`.
  - `random.rs`: the calls into `rand`.
- `app/` is the Godot extension: the `Map` and `Stats` nodes, the global
  statistics, and the float conversions (random floor sizes, the wall cell
  coordinates of a floor, positions as `Vector3`).
- `tests/` exercises the library on concrete values.
