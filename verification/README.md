# strwb

A small immediate-mode drawing program: coloured rectangles kept by a user-interface
context, a palette the pointer picks colours from, and a renderer that batches quads for
the GPU.

- `src/` is the verified library (Verus): the interface state (`ui`), the paint
  program's click handling (`paint`), the window input state (`platform`), the quad
  batching and buffer sizing of the renderer and the decoding of textures (`graphics`).
  Coordinates are a type parameter: the library stores them and never computes with
  them.
- `app/` is the program around it: the glfw window, the wgpu device, the shaders, and the
  floating-point geometry (corner sums, hit tests, the projection matrix).
- `tests/` runs the library on concrete values.
