//! Which memory allocation backend owns a Vulkan allocation.
//!
//! The allocator objects themselves live with the application; the renderer records which
//! backend produced each allocation and refuses to release it through another one.

use crate::error::RendererError;
use vstd::prelude::*;

verus! {

/// One device-memory allocation, tagged by the backend that produced it and carrying that
/// backend's raw allocation handle.
#[derive(Clone, Copy, Debug, PartialEq, Eq, Structural)]
pub enum Memory {
    /// Device memory bound by the built-in allocator (`VkDeviceMemory`).
    Device(u64),
    /// An allocation of the `gpu-allocator` backend.
    Gpu(u64),
    /// An allocation of the Vulkan Memory Allocator backend.
    VkMem(u64),
}

/// The allocation backend in use.
#[derive(Clone, Copy, Debug, PartialEq, Eq, Structural)]
pub enum Allocator {
    /// The built-in allocator, which binds dedicated device memory.
    Default,
    /// The `gpu-allocator` backend.
    Gpu,
    /// The Vulkan Memory Allocator backend.
    VkMem,
}

/// The kind of resource whose memory is released or written.
#[derive(Clone, Copy, Debug, PartialEq, Eq, Structural)]
pub enum AllocationKind {
    /// A buffer allocation.
    Buffer,
    /// An image allocation.
    Image,
}

/// Whether `memory` was produced by `allocator`.
pub open spec fn backend_matches(allocator: Allocator, memory: Memory) -> bool {
    match (allocator, memory) {
        (Allocator::Default, Memory::Device(_)) => true,
        (Allocator::Gpu, Memory::Gpu(_)) => true,
        (Allocator::VkMem, Memory::VkMem(_)) => true,
        _ => false,
    }
}

impl Allocator {
    /// Checks that `memory` belongs to this backend before it is released or written.
    pub fn check_memory(&self, memory: &Memory, kind: AllocationKind) -> (r: Result<(), RendererError>)
        ensures
            r == if backend_matches(*self, *memory) {
                Ok::<(), RendererError>(())
            } else {
                Err::<(), RendererError>(
                    RendererError::Allocator(
                        match kind {
                            AllocationKind::Buffer => "allocator and buffer memory backend mismatch",
                            AllocationKind::Image => "allocator and image memory backend mismatch",
                        },
                    ),
                )
            },
    {
        match (self, memory) {
            (Allocator::Default, Memory::Device(_)) => Ok(()),
            (Allocator::Gpu, Memory::Gpu(_)) => Ok(()),
            (Allocator::VkMem, Memory::VkMem(_)) => Ok(()),
            _ => match kind {
                AllocationKind::Buffer => Err(
                    RendererError::Allocator("allocator and buffer memory backend mismatch"),
                ),
                AllocationKind::Image => Err(
                    RendererError::Allocator("allocator and image memory backend mismatch"),
                ),
            },
        }
    }
}

} // verus!
