# malen

`malen` is a library for 2D web game development on top of WebGL 2: GL
resource handling, shader program assembly, draw state, GPU timers, keyboard
and mouse input, and a 2D light pipeline with shadow maps.

## Layout

- `src/` is the library's logic, written in Verus and verified:
  - `gl/`: draw state (blending, depth testing, line width, color mask) and
    the GL state changes that set it; texture parameters and their GL
    enumerants; the checks made before textures are created; the attachment
    plan of framebuffers; vertex attribute declarations and pointers; uniform
    block declarations; the assembly and preprocessing of shader sources;
    draw call arguments; the bookkeeping of frame and draw timers and the
    statistics of their samples.
  - `input/`: the keys that DOM keyboard codes name, and the state of the
    pressed keys and of the mouse, kept up to date from input events.
  - `light/`: the parameters of the light pipeline, the textures and draw
    state it sets up, the vertices and element indices of occluder lines,
    rectangles and circles, and the element indices of lights' circle
    segments.
  - `text.rs`: string operations with contracts, used by the above.
- `tests/` runs the library on concrete values.
- `app/` is the part that talks to the browser and to the GL through `glow`
  and `web-sys`: it creates and binds GL objects, compiles shaders, issues
  draw calls, listens to DOM events and runs the animation frame loop. It
  calls into the library for every decision and carries out what the
  library plans.

Floating-point values that the library only passes on (colors, depth
ranges, line widths, mouse positions) are held as their IEEE 754 bit
patterns.
