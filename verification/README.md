# dualcut_engine

The decision logic of the dualcut video engine, verified with Verus.

- `src/` — the library: the stable hash and cache file names of shape
  rasters and thumbnails, fill colour parsing, pixel-buffer reshaping
  (row padding, coverage inversion), the shape-raster and thumbnail
  workflows, the agent API's routing and answers, the preview's play
  toggle and the kinds of scripted clips. Each function carries its
  contract; the laws that relate several calls are proof functions next
  to the functions they speak of.
- `app/` — the I/O around it: the HTTP server (tiny_http), GStreamer
  decoding, GPU rendering with Vello, PNG writing, TypeScript scripting
  and the GTK preview. The workflows in `src/` say what to do next; `app/`
  does it and reports back.
- `tests/` — tests of the library on concrete values.
