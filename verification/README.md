# ves

The verified core of VES, a toolkit for games in the style of the consoles of the '80s and '90s,
written in Rust and proved with Verus.

## Layout

- `src/` is the library. Verus proves its functions against `requires`/`ensures` contracts
  stated over mathematical models (`Seq`, `int`, views of the data types); the few calls into
  other crates (hashing, the linked hash map, UTF-8 decoding) stand behind small wrappers whose
  contracts are trusted:
  - `unit`, `geom`: coordinates of "artwork space", points, sizes, inclusive rectangles, and the
    cutting of a rectangle along the axes through a point.
  - `surface`: row-major pixel buffers, the order in which a selection of a surface is visited
    (flipped and wrapping around the edges), and rows of a view.
  - `sprite`, `movie`: palettes, indexed surfaces, tiles, sprites, cels, animations and movies.
  - `snes`: decoding of SNES colors, palettes, object sizes, OAM data and 4bpp CHR tables.
  - `cache`: an append-only, de-duplicating cache of values.
  - `entities`: the art model of named entities with named animations.
  - `controls`, `playback`, `looping`, `app_log`, `style`: the state machines and data behind
    the viewers: a bounded cursor, selections, mouse drags, movie playback driven by elapsed time
    (with playback controls, or looping without end), the RGBA textures of a frame's sprites, the
    application log, and the colors of the interface.
  - `render`, `host`, `logging`: the prototype core's drawing of tiles onto its screen buffer and
    its handling of log calls from the game.
- `tests/` exercises the library on concrete values.
- `app/` holds what touches the outside world: reading captures from disk, the `log` framework,
  the playback clock, and the game's logger that calls into the core through a function pointer.
