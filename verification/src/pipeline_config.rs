//! Fixed configuration of the renderer's Vulkan pipeline objects: descriptor pool sizing,
//! standard samplers, and the decoding of SPIR-V shader modules.

use crate::error::RendererError;
use crate::vulkan_values::{
    DESCRIPTOR_TYPE_SAMPLED_IMAGE, DESCRIPTOR_TYPE_SAMPLER, FILTER_NEAREST,
    SAMPLER_ADDRESS_MODE_CLAMP_TO_EDGE, SAMPLER_MIPMAP_MODE_LINEAR, SAMPLER_MIPMAP_MODE_NEAREST,
};
use vstd::prelude::*;

verus! {

/// Fewest sampled-image descriptor sets the pool may hold, so that font atlas replacements and
/// fence-delayed texture retirement have headroom.
pub const MIN_SAMPLED_IMAGE_DESCRIPTORS: u32 = 8;

/// Descriptor sets of the renderer's two standard samplers.
pub const STANDARD_SAMPLER_DESCRIPTORS: u32 = 2;

/// One `VkDescriptorPoolSize`.
#[derive(Clone, Copy, Debug, PartialEq, Eq, Structural)]
pub struct DescriptorPoolSize {
    /// `VkDescriptorType`.
    pub ty: i32,
    /// Number of descriptors of that type.
    pub descriptor_count: u32,
}

/// The renderer needs at least one frame in flight.
pub fn validate_in_flight_frames(in_flight_frames: usize) -> (r: Result<(), RendererError>)
    ensures
        r == if in_flight_frames == 0 {
            Err::<(), RendererError>(
                RendererError::InvalidRenderState("Options::in_flight_frames must be >= 1"),
            )
        } else {
            Ok::<(), RendererError>(())
        },
{
    if in_flight_frames == 0 {
        Err(RendererError::InvalidRenderState("Options::in_flight_frames must be >= 1"))
    } else {
        Ok(())
    }
}

/// The number of bytes a `width` x `height` RGBA8 texture uploads from a staging buffer filled
/// from `pixels_len` bytes: a size that overflows, or too few bytes, is an allocator error.
pub fn rgba_upload_size(width: u32, height: u32, pixels_len: usize) -> (r: Result<usize, RendererError>)
    ensures
        width * height * 4 > usize::MAX ==> r == Err::<usize, RendererError>(
            RendererError::Allocator("texture size overflow"),
        ),
        width * height * 4 <= usize::MAX && pixels_len < width * height * 4 ==> r == Err::<
            usize,
            RendererError,
        >(RendererError::Allocator("texture pixel buffer too small")),
        width * height * 4 <= usize::MAX && pixels_len >= width * height * 4 ==> r == Ok::<
            usize,
            RendererError,
        >((width * height * 4) as usize),
{
    let w = width as usize;
    let h = height as usize;
    let expected = match w.checked_mul(h) {
        None => {
            proof {
                assert(width * height * 4 > usize::MAX) by (nonlinear_arith)
                    requires
                        width * height > usize::MAX,
                ;
            }
            return Err(RendererError::Allocator("texture size overflow"));
        },
        Some(area) => match area.checked_mul(4) {
            None => return Err(RendererError::Allocator("texture size overflow")),
            Some(bytes) => bytes,
        },
    };
    if pixels_len < expected {
        return Err(RendererError::Allocator("texture pixel buffer too small"));
    }
    Ok(expected)
}

/// Sizes the descriptor pool for `max_sampled_images` texture sets plus the standard sampler
/// sets: the maximum number of sets and the per-type descriptor counts.
pub fn descriptor_pool_plan(max_sampled_images: u32) -> (r: Result<
    (u32, [DescriptorPoolSize; 2]),
    RendererError,
>)
    ensures
        max_sampled_images < MIN_SAMPLED_IMAGE_DESCRIPTORS ==> r == Err::<
            (u32, [DescriptorPoolSize; 2]),
            RendererError,
        >(RendererError::InvalidRenderState("Options::max_textures must be >= 8")),
        MIN_SAMPLED_IMAGE_DESCRIPTORS <= max_sampled_images && max_sampled_images
            + STANDARD_SAMPLER_DESCRIPTORS > u32::MAX ==> r == Err::<
            (u32, [DescriptorPoolSize; 2]),
            RendererError,
        >(
            RendererError::InvalidRenderState(
                "Options::max_textures overflows Vulkan descriptor-pool accounting",
            ),
        ),
        MIN_SAMPLED_IMAGE_DESCRIPTORS <= max_sampled_images && max_sampled_images
            + STANDARD_SAMPLER_DESCRIPTORS <= u32::MAX ==> {
            &&& r matches Ok((max_sets, sizes))
            &&& max_sets == max_sampled_images + STANDARD_SAMPLER_DESCRIPTORS
            &&& sizes@ == seq![
                DescriptorPoolSize {
                    ty: DESCRIPTOR_TYPE_SAMPLED_IMAGE,
                    descriptor_count: max_sampled_images,
                },
                DescriptorPoolSize {
                    ty: DESCRIPTOR_TYPE_SAMPLER,
                    descriptor_count: STANDARD_SAMPLER_DESCRIPTORS,
                },
            ]
        },
{
    if max_sampled_images < MIN_SAMPLED_IMAGE_DESCRIPTORS {
        return Err(RendererError::InvalidRenderState("Options::max_textures must be >= 8"));
    }
    let max_sets = match max_sampled_images.checked_add(STANDARD_SAMPLER_DESCRIPTORS) {
        Some(n) => n,
        None => return Err(
            RendererError::InvalidRenderState(
                "Options::max_textures overflows Vulkan descriptor-pool accounting",
            ),
        ),
    };
    let sizes = [
        DescriptorPoolSize { ty: DESCRIPTOR_TYPE_SAMPLED_IMAGE, descriptor_count: max_sampled_images },
        DescriptorPoolSize { ty: DESCRIPTOR_TYPE_SAMPLER, descriptor_count: STANDARD_SAMPLER_DESCRIPTORS },
    ];
    proof {
        assert(sizes@ =~= seq![
            DescriptorPoolSize { ty: DESCRIPTOR_TYPE_SAMPLED_IMAGE, descriptor_count: max_sampled_images },
            DescriptorPoolSize { ty: DESCRIPTOR_TYPE_SAMPLER, descriptor_count: STANDARD_SAMPLER_DESCRIPTORS },
        ]);
    }
    Ok((max_sets, sizes))
}

/// The integer parameters of a standard sampler; its level-of-detail range is [-1000, 1000]
/// and its anisotropy 1.
#[derive(Clone, Copy, Debug, PartialEq, Eq, Structural)]
pub struct StandardSamplerParams {
    /// `VkFilter` for magnification.
    pub mag_filter: i32,
    /// `VkFilter` for minification.
    pub min_filter: i32,
    /// `VkSamplerMipmapMode`.
    pub mipmap_mode: i32,
    /// `VkSamplerAddressMode` on all three axes.
    pub address_mode: i32,
}

/// A standard sampler filters with `filter` in both directions, picks mip levels the same way
/// (nearest for a nearest filter, linear otherwise) and clamps to the edge.
pub fn standard_sampler_params(filter: i32) -> (r: StandardSamplerParams)
    ensures
        r == (StandardSamplerParams {
            mag_filter: filter,
            min_filter: filter,
            mipmap_mode: if filter == FILTER_NEAREST {
                SAMPLER_MIPMAP_MODE_NEAREST
            } else {
                SAMPLER_MIPMAP_MODE_LINEAR
            },
            address_mode: SAMPLER_ADDRESS_MODE_CLAMP_TO_EDGE,
        }),
{
    let mipmap_mode = if filter == FILTER_NEAREST {
        SAMPLER_MIPMAP_MODE_NEAREST
    } else {
        SAMPLER_MIPMAP_MODE_LINEAR
    };
    StandardSamplerParams {
        mag_filter: filter,
        min_filter: filter,
        mipmap_mode,
        address_mode: SAMPLER_ADDRESS_MODE_CLAMP_TO_EDGE,
    }
}

/// The SPIR-V magic number.
pub const SPIRV_MAGIC: u32 = 0x0723_0203;

/// The little-endian word at word index `i` of `b`.
pub open spec fn le_word(b: Seq<u8>, i: int) -> int {
    b[4 * i] + 256 * b[4 * i + 1] + 65536 * b[4 * i + 2] + 16777216 * b[4 * i + 3]
}

/// The big-endian word at word index `i` of `b`.
pub open spec fn be_word(b: Seq<u8>, i: int) -> int {
    b[4 * i + 3] + 256 * b[4 * i + 2] + 65536 * b[4 * i + 1] + 16777216 * b[4 * i]
}

/// Whether `b` is a SPIR-V module: whole words, at least one, starting with the magic number in
/// either byte order.
pub open spec fn spirv_bytes_ok(b: Seq<u8>) -> bool {
    &&& b.len() % 4 == 0
    &&& b.len() >= 4
    &&& (le_word(b, 0) == SPIRV_MAGIC || be_word(b, 0) == SPIRV_MAGIC)
}

/// The words of a SPIR-V module, in the byte order its magic number shows.
pub open spec fn spirv_words(b: Seq<u8>) -> Seq<u32> {
    Seq::new(
        (b.len() / 4) as nat,
        |i: int|
            if le_word(b, 0) == SPIRV_MAGIC {
                le_word(b, i) as u32
            } else {
                be_word(b, i) as u32
            },
    )
}

/// `std::io::Error`, the error of reading a SPIR-V module.
#[verifier::external_type_specification]
#[verifier::external_body]
pub struct ExIoError(std::io::Error);

/// Reads the SPIR-V module `bytes` with `ash::util::read_spv` over an in-memory cursor.
///
/// The contract restates that function's source: it fails unless the length is a whole,
/// nonzero number of words whose first one is the magic number in native or swapped byte
/// order, and it returns the words swapped to the magic number's order. Both byte orders of the
/// machine give the same words, since the swap is decided on the first word.
#[verifier::external_body]
fn read_spv_words(bytes: &[u8]) -> (r: Result<Vec<u32>, std::io::Error>)
    ensures
        r is Ok <==> spirv_bytes_ok(bytes@),
        r matches Ok(words) ==> words@ == spirv_words(bytes@),
{
    ash::util::read_spv(&mut std::io::Cursor::new(bytes))
}

/// Decodes an embedded SPIR-V shader module into words.
pub fn decode_spirv(bytes: &[u8]) -> (r: Result<Vec<u32>, RendererError>)
    ensures
        r is Ok <==> spirv_bytes_ok(bytes@),
        r matches Ok(words) ==> words@ == spirv_words(bytes@),
        r is Err ==> r == Err::<Vec<u32>, RendererError>(RendererError::Spv),
{
    match read_spv_words(bytes) {
        Ok(words) => Ok(words),
        Err(_) => Err(RendererError::Spv),
    }
}

} // verus!
