# sourcerenderer_vulkan

The decisions of a Vulkan rendering backend, proved with Verus: how a render
graph is ordered and compiled into passes and barriers, how descriptor sets are
bound and cached, how pipeline layouts are merged from shader reflection, how
swapchains, devices and instances are set up, how barriers and submissions are
laid out, and what the engine's vocabulary is in Vulkan terms.

- `src/` is the verified library. Every Vulkan value it hands out is a plain
  integer (`vk_values` holds the constants it uses); handles are `u64`.
- `tests/` runs the library on concrete inputs; `tests/vk_values.rs` checks the
  constants against `ash`.
- `app/` is the glue that talks to the driver through `ash`: it reads what the
  driver reports into the library's types, and records or submits the plans
  the library returns.
