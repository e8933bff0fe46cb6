# ratex

The verified core of a KaTeX-compatible math typesetting toolkit, written in Verus.

- `src/` — the library, every function verified:
  - `font_id`: the KaTeX font faces and their canonical names (`as_str`, `parse`, with the
    round-trip law);
  - `symbols`: classification used by the layout engine (Greek letters, arrow accents, font
    commands, spacing commands, delimiters and their sizes, atom spacing classes, operator limits,
    array column alignment, enclose commands);
  - `splits`: rows of a multi-line expression, subpaths of a filled path;
  - `stats`, `bench`: benchmark statistics, batch-size calibration, per-call averages, flag lookup
    and timestamp labels;
  - `fontfiles`, `glyphs`, `png_out`: font file names and directories, glyph and face selection
    through `ab_glyph`, PNG encoding through `png`;
  - `text`: string comparison and decimal numerals.
- `app/` — file system, environment, clock and floating-point rasterizing (tiny-skia) around it.
- `tests/` — tests of the library on concrete values.
