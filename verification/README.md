# hotline

The platform independent core of the hotline graphics engine, written in Verus with its
behaviour stated as contracts and proved.

## Layout

- `src/gfx.rs`: graphics API descriptions (formats, resources, pipeline states, flags,
  indirect arguments, pipeline statistics).
- `src/gfx/format.rs`: block sizes, pitches and sizes of images and mip chains, alignment.
- `src/gfx/heap.rs`: descriptor heap slot allocation with deferred release of dropped slots,
  and query heaps.
- `src/gfx/d3d12.rs` and `src/gfx/d3d12/`: what the Direct3D 12 backend decides: DXGI
  formats, adapter selection, state values, buffer and texture creation plans with the heap
  slots their views take, root signature layout and slot lookup, render pass access, texture
  data uploads and mip map generation passes.
- `src/gfx/mtl.rs` and `src/gfx/mtl/`: Metal state values, buffer slot numbering per shader
  stage, and the vertex descriptor, colour attachments and depth stencil state of render
  pipelines.
- `src/image.rs`: DDS and RGBA8 image descriptions, image file kinds, read back extents.
- `src/imdraw.rs`: immediate mode vertex buffer bookkeeping.
- `src/client.rs`: plugin reload, setup and update decisions, and window placement saving.
- `src/text.rs`: decimal text of integers.
- `app/lib.rs`: file reading and writing around the library (image files through
  `stb_image` and `stb_image_write`, JSON through `serde`).
- `tests/`: tests of the library.

Laws the library keeps are stated as public proof functions (`lemma_*`) next to the
functions they speak of.
