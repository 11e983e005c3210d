# render3d (verified core)

The integer core of a terminal 3D renderer, verified with Verus.

- `src/scene.rs`: the scene (objects, lights, background) and its laws.
- `src/framebuffer.rs`: the pixel grid the render modes draw from.
- `src/render_mode.rs`: half-block, braille and ASCII cells, the pixel
  resolution of an area, and drawing an area into a ratatui `Buffer`.
- `src/cells.rs`: ratatui's `Buffer` as seen by the library (trusted items).
- `src/loader.rs`: vertices and triangles of a loaded OBJ model.
- `app/`: luminance (floating point), OBJ file loading with `tobj`, and
  normal computation.
