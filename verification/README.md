# lazer_refraction_renderer

A 2D laser refraction renderer: rays of many wavelengths are cast into a
glass polygon, refracted and reflected on the GPU, and accumulated into a
texture.

- `src/` is a Verus-verified library with the integer and text logic of the
  renderer: byte-count read-outs (`units`), alignment and workgroup counts
  (`align`), storage buffer sizes and the split of large ray sets over
  several buffers (`buffers`), WGSL struct declarations and shader source
  assembly (`wgsl`), render-target resizing (`viewport`), settings-panel
  flags and the circle's vertex count (`controls`), frame counting
  (`frames`) and the binding slots of sampled textures (`texture`).
- `app/` is the program around it: the macroquad ray-bouncing sandbox, and
  the wgpu renderers that call the library. Floating-point geometry, optics
  and GPU work stay there.
- `tests/` exercises the library.
