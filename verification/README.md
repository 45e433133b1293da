# gpui_gpu

Device-epoch-tagged GPU images for a compositor built on wgpu, verified with Verus.

- `src/decimal.rs`: decimal text of integers, for refusal messages.
- `src/epoch.rs`: `GpuDeviceEpoch`, one lifetime of the graphics device.
- `src/image_id.rs`: image identities and the counter that hands them out.
- `src/validation.rs`: the rules a texture must meet to be sampled directly, as
  spec functions over plain values, with the exec checks proved against them.
- `src/gpu.rs`: `GpuContext`, `GpuTexture` and `GpuImage`, which read the texture
  through wgpu and apply the rules.
- `src/frame.rs`: how a frame proceeds when the device was lost.
- `src/geometry.rs`: device-pixel sizes and bounds.
- `src/wgpu_calls.rs`: the wgpu types and calls the library relies on (trusted).
- `app/`: the process-wide identity counter, conversion from wgpu descriptors,
  `anyhow` errors and debug text.

The platform renderer of the original (a macOS Metal layer driven through
`gpui_wgpu`, `metal`, `cocoa` and `objc`) is not part of this crate: those crates
are macOS-only or belong to the larger project. Its one decision, how a frame
proceeds after device loss, is kept in `src/frame.rs` for a renderer to call.
