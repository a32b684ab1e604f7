//! Verified bookkeeping core of a Vulkan (Ash) renderer backend for Dear ImGui.
//!
//! The modules hold the decisions that the renderer makes between Vulkan calls: when a texture
//! resource may be destroyed, how pixel uploads are laid out, which draw ranges are valid, which
//! swapchain configuration a secondary viewport uses, and how ownership of shared Dear ImGui
//! state is checked. Vulkan handles appear as their raw 64-bit values.

pub mod allocator;
pub mod callback_registry;
pub mod context_state;
pub mod draw;
pub mod error;
pub mod pipeline_config;
pub mod pixels;
pub mod render_state;
pub mod renderer_lifecycle;
pub mod retirement;
pub mod swapchain;
pub mod texture_manager;
pub mod texture_retirement;
pub mod uploads;
pub mod viewport_runtime;
pub mod viewport_contract;
pub mod viewport_registry;
pub mod vulkan_values;
