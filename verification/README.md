# hypatia

The verified core of Hypatia, a live, interactive wallpaper player for Wayland compositors
with the layer-shell protocol.

- `src/` is the library, verified with Verus:
  - `time`: the player clock's instants and durations;
  - `error`: the player's error codes;
  - `vertex`: vertex components, their memory layout and the vertex data builder;
  - `uniforms`: the uniform storage shared by the pipeline's shader programs;
  - `gl`: graphics enumerants and texture checks;
  - `render`: render parameters and frame information;
  - `config`: the pipeline configuration, its version and path resolution;
  - `pipeline`: texture scaling, pausing and texture units;
  - `fade`: the timing of the focus fade;
  - `player`: how the pointer moves the focus;
  - `window`: layer-surface settings;
  - `log`: log levels and the log prefix layout;
  - `text`: decimal rendering of integers.
- `tests/` holds the tests of the library.
- `app/` is the command line program around it. It reads and checks a wallpaper's
  configuration; the Wayland window and the OpenGL renderer that would show it are not
  part of this build.
