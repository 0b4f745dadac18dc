# mixtuur

A harmonic pitch colour generator for Cubase: colour palettes for musical
scales after Stephen Malinowski's Harmonic Coloring, which maps the Circle of
Fifths onto the colour wheel.

```bash
mixtuur <note> <scale> [--explain] [--push]
```

## Layout

- `src/` is the library, verified with Verus:
  - `pitch` parses note names and decides flat or sharp spelling;
  - `scale` holds the built-in scales and looks them up by name;
  - `note` names the twelve pitch classes of a key;
  - `degree` labels degrees and builds the explanatory comments;
  - `color` maps intervals onto the Circle-of-Fifths palette;
  - `render` lays out the colour table;
  - `cubase` decides how Cubase's `UserPreferences.xml` is rewritten;
  - `cli` holds the scale choices and the parsed arguments;
  - `text` holds character-level helpers.
- `app/` is the program: argument parsing with `clap`, HSV conversion with
  `palette`, terminal output with `colored`, and reading and writing the
  Cubase preferences with `quick-xml` and `dirs`.
- `tests/` runs the library on concrete values.
