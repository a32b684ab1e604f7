//! Errors reported by the renderer's verified decisions.

use vstd::prelude::*;

verus! {

/// Errors that can occur during renderer bookkeeping, validation and frame preparation.
///
/// Vulkan result codes appear as their raw `i32` values.
#[derive(Clone, Debug, PartialEq, Eq)]
pub enum RendererError {
    /// This backend is not supported on the current compilation target.
    UnsupportedTarget,
    /// A Vulkan call failed with this raw result code.
    Vulkan(i32),
    /// The embedded SPIR-V bytecode is malformed.
    Spv,
    /// Initialization error.
    Init(&'static str),
    /// Renderer options or state are invalid.
    InvalidRenderState(&'static str),
    /// Context renderer state was already claimed before Ash initialization.
    RendererStateOccupied { field: &'static str },
    /// Context renderer state changed after Ash published its ownership contract.
    RendererStateReplaced { field: &'static str },
    /// Draw frame resources are unavailable.
    FrameResourcesUnavailable,
    /// The renderer has already released its Vulkan resources.
    RendererDestroyed,
    /// The renderer is not attached to a Dear ImGui context.
    RendererNotAttached,
    /// A frame or lifecycle call used a different Dear ImGui context.
    ContextMismatch { expected: u64, actual: u64 },
    /// A rendered frame belongs to an obsolete renderer-consumer generation.
    ConsumerGenerationMismatch { expected: u64, actual: u64 },
    /// Fence-proven texture retirement requires at least one completion fence.
    TextureRetirementFencesEmpty,
    /// A completion fence was null.
    TextureRetirementFenceNull { index: usize },
    /// A completion fence has not signaled yet.
    TextureRetirementFencePending { index: usize },
    /// A retirement batch was not issued by this renderer.
    TextureRetirementBatchUnknown { sequence: u64 },
    /// Bad texture id (no matching descriptor set).
    BadTextureId(u64),
    /// Allocator error.
    Allocator(&'static str),
    /// A draw command's index range lies outside its draw list's index buffer.
    DrawCommandIndexRangeOutOfBounds { start: usize, end: usize, len: usize },
    /// A draw command references a vertex outside its draw list's vertex buffer.
    DrawCommandVertexOutOfBounds { index: usize, len: usize },
    /// An offset into a draw buffer overflowed.
    DrawBufferOffsetOverflow { buffer: &'static str },
    /// A draw buffer is larger than Vulkan draw parameters can address.
    DrawBufferTooLarge { buffer: &'static str },
}

} // verus!
