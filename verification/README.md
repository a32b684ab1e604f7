# dear-imgui-ash

The bookkeeping core of a Vulkan (Ash) renderer backend for Dear ImGui, verified with Verus.

`src/` holds the decisions the renderer makes between Vulkan calls, each with a contract:

- `retirement`, `texture_manager`, `texture_retirement`, `uploads`: texture ids, managed-texture
  uploads and their GPU-completion-gated retirement, proven by a device wait or by fences;
  retirement queues draw their identities from one `QueueIdSource`, which `app/queue_ids.rs`
  keeps once per process;
- `pixels`, `draw`: pixel layout conversion for uploads, draw-command validation and
  preparation;
- `swapchain`, `viewport_runtime`, `viewport_contract`, `viewport_registry`: swapchain
  configuration and the state machines, fault queue, ownership checks and registries of the
  multi-viewport runtime;
- `context_state`, `callback_registry`, `render_state`, `renderer_lifecycle`: publication of the
  renderer into a Dear ImGui Context and its teardown;
- `pipeline_config`, `allocator`, `error`, `vulkan_values`: fixed pipeline configuration,
  allocation tags, errors and raw Vulkan constants.

Vulkan handles appear as their raw 64-bit values. `app/` holds what stays outside the verified
core: Vulkan command recording, floating-point framebuffer math, conversions from Ash and
Dear ImGui values, and error types with their messages. `tests/` exercises the library.
