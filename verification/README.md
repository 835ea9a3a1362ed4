# webgl_vs_webgpu

The verified core of a renderer that draws the same scene (a thousand spinning
bottles) through WebGPU or WebGL and shows the frame statistics.

- `src/` is verified with Verus:
  - `color`: packing RGBA bytes into `0xRRGGBBAA` words and back, with both
    round trips proved; the color palette.
  - `vertex`: the vertex types and the attribute layouts they describe; every
    layout is proved to cover its vertex exactly, attribute after attribute.
  - `mesh`: the index buffer of a triangle list and the size of a vertex buffer.
  - `event`: what the application does with each window and loop event, on the
    desktop and on the web, and when the surface must be rebuilt.
  - `frame`: on which frames the displayed statistics are recomputed.
  - `scenario`: settings of the comparison scene.
- `app/` holds what cannot be verified here: floating-point math (camera,
  projections, uniforms, statistics averages), the `f32` vertex types with their
  `bytemuck`/`serde` derives, CAD modelling with truck, GPU resources with wgpu,
  the egui panel and the winit event loop.
- `tests/` run the library on concrete values.
