# lamco-wgpu

A bridge layer that makes wgpu a "guest renderer" for Smithay-based Wayland compositors. The
compositor owns the Vulkan context and the buffers; wgpu renders on the shared context.

The rules of the bridge are a library in Verus. Each rule has a contract, and Verus proves it.

- `src/`: the library.
  - `format`, `extensions`, `vulkan`, `error`, `text`: formats, names, requests to Vulkan, errors
    and their messages.
  - `modifiers`, `multiplanar`, `dmabuf`: what can be imported, and the steps of an import. A step
    takes the outcome of the call before it, and says which call comes next or what is to be
    released.
  - `bridge`, `setup`: the formats of a device, the routing of imports, frames, and the extensions
    and devices that a bridge is set up with.
  - `sync`, `smithay_sync`: semaphores, sync files, acquire and release points.
  - `scanout`: render targets that are exported as dmabufs.
  - `renderer`, `texture`, `pixels`: the texture cache, uploads, frames and read back of pixels.
- `tests/`: tests of the library.
- `app/`: the calls into Vulkan, wgpu, Smithay and the kernel, and Smithay's traits.
