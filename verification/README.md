# globe

Customizable ASCII globe generator: a terminal renders a textured planet,
one glyph per character cell, with a star field, the milky way and a sun
behind it.

- `src/` is the verified library: glyph alphabets and ordered
  dithering, the sky crossfade ramp and the integer star field, the
  `GIDX1` baked texture format, ascii texture indexing, texture assembly,
  the canvas and frame diffing, and the built-in body templates.
- `app/` is the command line program around it: argument parsing, the
  terminal loop and the floating point ray tracer that turns camera and
  texture into canvas glyphs.
- `tests/` exercises the library on concrete values.

The baked body maps (`<body>_hd.gidx`) are read at startup from the
`textures` directory (or the directory named by `GLOBE_TEXTURE_DIR` when
the program is built).
