//! Raw values of the Vulkan enumerants and flag bits that the renderer's decisions use.
//!
//! The values are those of the Vulkan 1.3 registry.

use vstd::prelude::*;

verus! {

/// `VK_FORMAT_UNDEFINED`.
pub const FORMAT_UNDEFINED: i32 = 0;

/// `VK_FORMAT_R8G8B8A8_UNORM`.
pub const FORMAT_R8G8B8A8_UNORM: i32 = 37;

/// `VK_FORMAT_R8G8B8A8_SRGB`.
pub const FORMAT_R8G8B8A8_SRGB: i32 = 43;

/// `VK_FORMAT_B8G8R8A8_UNORM`.
pub const FORMAT_B8G8R8A8_UNORM: i32 = 44;

/// `VK_FORMAT_B8G8R8A8_SRGB`.
pub const FORMAT_B8G8R8A8_SRGB: i32 = 50;

/// `VK_FORMAT_A8B8G8R8_SRGB_PACK32`.
pub const FORMAT_A8B8G8R8_SRGB_PACK32: i32 = 57;

/// `VK_FORMAT_A2B10G10R10_UNORM_PACK32`.
pub const FORMAT_A2B10G10R10_UNORM_PACK32: i32 = 64;

/// `VK_COLOR_SPACE_SRGB_NONLINEAR_KHR`.
pub const COLOR_SPACE_SRGB_NONLINEAR: i32 = 0;

/// `VK_COLOR_SPACE_HDR10_ST2084_EXT`.
pub const COLOR_SPACE_HDR10_ST2084: i32 = 1000104008;

/// `VK_PRESENT_MODE_IMMEDIATE_KHR`.
pub const PRESENT_MODE_IMMEDIATE: i32 = 0;

/// `VK_PRESENT_MODE_MAILBOX_KHR`.
pub const PRESENT_MODE_MAILBOX: i32 = 1;

/// `VK_PRESENT_MODE_FIFO_KHR`.
pub const PRESENT_MODE_FIFO: i32 = 2;

/// `VK_PRESENT_MODE_FIFO_RELAXED_KHR`.
pub const PRESENT_MODE_FIFO_RELAXED: i32 = 3;

/// `VK_ATTACHMENT_LOAD_OP_CLEAR`.
pub const ATTACHMENT_LOAD_OP_CLEAR: i32 = 1;

/// `VK_ATTACHMENT_LOAD_OP_DONT_CARE`.
pub const ATTACHMENT_LOAD_OP_DONT_CARE: i32 = 2;

/// `VK_DESCRIPTOR_TYPE_SAMPLER`.
pub const DESCRIPTOR_TYPE_SAMPLER: i32 = 0;

/// `VK_DESCRIPTOR_TYPE_SAMPLED_IMAGE`.
pub const DESCRIPTOR_TYPE_SAMPLED_IMAGE: i32 = 2;

/// `VK_FILTER_NEAREST`.
pub const FILTER_NEAREST: i32 = 0;

/// `VK_FILTER_LINEAR`.
pub const FILTER_LINEAR: i32 = 1;

/// `VK_SAMPLER_MIPMAP_MODE_NEAREST`.
pub const SAMPLER_MIPMAP_MODE_NEAREST: i32 = 0;

/// `VK_SAMPLER_MIPMAP_MODE_LINEAR`.
pub const SAMPLER_MIPMAP_MODE_LINEAR: i32 = 1;

/// `VK_SAMPLER_ADDRESS_MODE_CLAMP_TO_EDGE`.
pub const SAMPLER_ADDRESS_MODE_CLAMP_TO_EDGE: i32 = 2;

/// `VK_SHARING_MODE_EXCLUSIVE`.
pub const SHARING_MODE_EXCLUSIVE: i32 = 0;

/// `VK_SHARING_MODE_CONCURRENT`.
pub const SHARING_MODE_CONCURRENT: i32 = 1;

/// `VK_QUEUE_GRAPHICS_BIT`.
pub const QUEUE_GRAPHICS_BIT: u32 = 1;

/// `VK_IMAGE_USAGE_TRANSFER_SRC_BIT`.
pub const IMAGE_USAGE_TRANSFER_SRC_BIT: u32 = 1;

/// `VK_IMAGE_USAGE_STORAGE_BIT`.
pub const IMAGE_USAGE_STORAGE_BIT: u32 = 8;

/// `VK_IMAGE_USAGE_COLOR_ATTACHMENT_BIT`.
pub const IMAGE_USAGE_COLOR_ATTACHMENT_BIT: u32 = 16;

/// `VK_COMPOSITE_ALPHA_OPAQUE_BIT_KHR`.
pub const COMPOSITE_ALPHA_OPAQUE_BIT: u32 = 1;

/// `VK_COMPOSITE_ALPHA_PRE_MULTIPLIED_BIT_KHR`.
pub const COMPOSITE_ALPHA_PRE_MULTIPLIED_BIT: u32 = 2;

/// `VK_COMPOSITE_ALPHA_POST_MULTIPLIED_BIT_KHR`.
pub const COMPOSITE_ALPHA_POST_MULTIPLIED_BIT: u32 = 4;

/// `VK_COMPOSITE_ALPHA_INHERIT_BIT_KHR`.
pub const COMPOSITE_ALPHA_INHERIT_BIT: u32 = 8;

/// `VK_SUCCESS`.
pub const RESULT_SUCCESS: i32 = 0;

/// `VK_ERROR_OUT_OF_HOST_MEMORY`.
pub const RESULT_ERROR_OUT_OF_HOST_MEMORY: i32 = -1;

/// `VK_ERROR_DEVICE_LOST`.
pub const RESULT_ERROR_DEVICE_LOST: i32 = -4;

/// `VK_SUBOPTIMAL_KHR`.
pub const RESULT_SUBOPTIMAL_KHR: i32 = 1000001003;

/// `VK_ERROR_OUT_OF_DATE_KHR`.
pub const RESULT_ERROR_OUT_OF_DATE_KHR: i32 = -1000001004;

} // verus!
