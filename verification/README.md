# embree

Bindings to the Embree ray-tracing kernels, in two parts.

- `src/` is the verified library. It holds what the bindings decide and
  compute: the structure-of-arrays layouts of rays and hits (single rays,
  packets of 4, 8 and 16, streams and runtime-sized packets), the 16-byte
  padding of buffers and stream members, range resolution and buffer slices,
  the bookkeeping of the buffers bound to a geometry and of the geometries
  attached to a scene, the buffer layouts of the curve and mesh geometries,
  the layout of interpolation results, the device configuration text, error
  codes and the BVH builder settings. Floating-point members are carried as
  their IEEE-754 bit patterns.
- `app/` calls the Embree C library: devices, buffers, geometries, scenes,
  stream intersection, the closures Embree calls back, and the `f32`
  arithmetic on rays and hits. Before each call into `src/` it tests what the
  library requires.

`tests/` exercises the library on concrete values.
