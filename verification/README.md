# vox_core

The verified core of a small voxel engine, written in Verus.

`src/` is the library. Every function in it carries a contract that Verus
proves:

- `render::as_meshes`: chunks of voxels, meshing through the
  `binary_greedy_meshing` crate, grouping of faces by orientation, size and
  material, and the indirect draw arguments that render one group per draw.
- `render`: face orientations, packed vertex words, face geometry on an
  integer grid, the cube's index buffer, id-assigning stores for meshes,
  materials and text labels, image decoding into RGBA bytes, and the choice
  of surface format.
- `assets`: a store of shared assets keyed by file name.
- `voxel_registry` and `voxel_position`: voxel types and their identifiers,
  and positions in the padded chunk buffer.
- `camera_controller`, `resources::input` and `window_events`: movement keys
  and the decisions of the window-event handler.

Public proof functions state the laws that hold across calls, such as
reading back a voxel after setting it, finding an asset under the name it
was stored under, or the indirect draws tiling the instance list.

`app/` is the rendering program around the library: windowing, GPU buffers,
floating-point vertices, textures and model loading. `tests/` runs the
library on concrete inputs.

Meshing needs a target whose `usize` has 64 bits.
