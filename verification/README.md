# dptrenchcraft

Converts Minecraft schematics (Sponge `.schem`/`.schematic` NBT files and
Litematica `.litematic` files) into Quake 2 (Valve 220) `.map` files for
Digital Paint: Paintball 2, with a list of the textures the map needs.

The library in `src/` is verified with Verus:

- `parser` reads an NBT tree (and Litematica regions) into a voxel grid,
  decoding the palette, block states and variable-length ids;
- `filter` drops air, doors and small plants, gives blocks their textures and
  culls full blocks that cannot be seen;
- `optimizer` turns blocks into brushes, merging full blocks into the largest
  rectangles first and runs of slabs and panels after;
- `exporter` writes the brushes as map text, inside a sky hull, and lists the
  textures used;
- `coverage` proves that meshing loses no block, invents none, and stays
  inside the grid.

`app/` is the command-line program: it reads files (gzip-compressed or not),
converts `fastnbt` and `rustmatica` values into the library's types, runs the
pipeline and writes the map and its texture list.

    dptrenchcraft <input> <output.map> [--greedy none|full-only|all]
