# jakar_engine

The verified core of a small Vulkan game engine, written in Verus.

- `src/settings`: render and engine settings with their builders; floating point
  values are held as the bit patterns of their `f32`.
- `src/input`: the key map and how a round of window events changes it, and the
  message queue and decisions of the input polling loop.
- `src/resources`: name registries with unique naming (materials, meshes,
  scenes), texture usage flags, and texture images: decoding, flips, turns,
  brightening and the upload format.
- `src/render`: render pass and frame stage bookkeeping, pipeline lookup by
  requirements, debug layer and device selection, bloom and luminance image
  sizes, frame counters.
- `src/scene`: the attribute filters that select scene nodes, and the scene tree
  whose selected names are collected from the bottom.
- `src/engine.rs`: engine status and creation errors.
- `app/`: the window and its input thread (winit), floating point settings and
  texture loading from files with the image crate's floating point filters.
