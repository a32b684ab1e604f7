//! Surface-support checks and swapchain configuration for secondary viewports.

use crate::vulkan_values::{
    COLOR_SPACE_SRGB_NONLINEAR, COMPOSITE_ALPHA_INHERIT_BIT, COMPOSITE_ALPHA_OPAQUE_BIT,
    COMPOSITE_ALPHA_POST_MULTIPLIED_BIT, COMPOSITE_ALPHA_PRE_MULTIPLIED_BIT,
    FORMAT_A8B8G8R8_SRGB_PACK32, FORMAT_B8G8R8A8_SRGB, FORMAT_B8G8R8A8_UNORM, FORMAT_R8G8B8A8_SRGB,
    FORMAT_R8G8B8A8_UNORM, FORMAT_UNDEFINED, IMAGE_USAGE_COLOR_ATTACHMENT_BIT, PRESENT_MODE_FIFO,
    PRESENT_MODE_FIFO_RELAXED, PRESENT_MODE_IMMEDIATE, PRESENT_MODE_MAILBOX, SHARING_MODE_CONCURRENT,
    SHARING_MODE_EXCLUSIVE,
};
use vstd::prelude::*;

verus! {

/// A complete surface format and color-space pair (raw Vulkan values).
#[derive(Clone, Copy, Debug, PartialEq, Eq, Structural, Hash)]
pub struct SurfaceFormat {
    /// `VkFormat`.
    pub format: i32,
    /// `VkColorSpaceKHR`.
    pub color_space: i32,
}

/// A two-dimensional size in pixels.
#[derive(Clone, Copy, Debug, PartialEq, Eq, Structural, Hash)]
pub struct Extent2D {
    /// Width in pixels.
    pub width: u32,
    /// Height in pixels.
    pub height: u32,
}

/// The surface capabilities that swapchain configuration reads.
#[derive(Clone, Copy, Debug, PartialEq, Eq, Structural)]
pub struct SurfaceCapabilities {
    /// Minimum number of images the surface supports.
    pub min_image_count: u32,
    /// Maximum number of images, or zero for no limit.
    pub max_image_count: u32,
    /// Current extent, or `u32::MAX` in both dimensions when the swapchain decides.
    pub current_extent: Extent2D,
    /// Smallest allowed extent.
    pub min_image_extent: Extent2D,
    /// Largest allowed extent.
    pub max_image_extent: Extent2D,
    /// `VkImageUsageFlags` the surface supports for swapchain images.
    pub supported_usage_flags: u32,
    /// `VkCompositeAlphaFlagsKHR` the surface supports.
    pub supported_composite_alpha: u32,
    /// `VkSurfaceTransformFlagBitsKHR` currently applied.
    pub current_transform: u32,
}

/// Vulkan surface capability required by the viewport runtime.
#[derive(Clone, Copy, Debug, PartialEq, Eq, Structural)]
pub enum SurfaceSupportError {
    /// The validation Vulkan surface must be non-null.
    NullSurface,
    /// Querying present support failed with this raw result.
    PresentSupportQuery(i32),
    /// The queue family cannot present to the validation surface.
    PresentUnsupported { queue_family_index: u32 },
    /// Querying surface capabilities failed with this raw result.
    CapabilitiesQuery(i32),
    /// The surface does not support COLOR_ATTACHMENT swapchain images.
    ColorAttachmentUnsupported,
    /// The surface does not support every requested swapchain image usage.
    ImageUsageUnsupported { required: u32, supported: u32 },
    /// Querying surface formats failed with this raw result.
    FormatsQuery(i32),
    /// The surface reports no formats.
    NoFormats,
    /// Querying surface present modes failed with this raw result.
    PresentModesQuery(i32),
    /// The surface reports no present modes.
    NoPresentModes,
    /// The surface offers no 8-bit sRGB format paired with `SRGB_NONLINEAR`.
    SrgbSurfaceFormatUnsupported,
    /// The surface does not offer the exact requested pair.
    SurfaceFormatUnsupported { requested: SurfaceFormat },
    /// The surface does not offer the exact requested present mode.
    PresentModeUnsupported { requested: i32 },
}

/// Policy used to select a complete surface format and color-space pair for secondary viewports.
#[derive(Clone, Copy, Debug, PartialEq, Eq, Structural)]
pub enum SurfaceFormatPolicy {
    /// Select an 8-bit sRGB format paired with `SRGB_NONLINEAR`.
    AutoSrgb,
    /// Require the exact pair used by the application's main swapchain.
    Exact(SurfaceFormat),
}

/// Presentation timing policy for secondary viewport swapchains.
#[derive(Clone, Copy, Debug, PartialEq, Eq, Structural)]
pub enum PresentModePolicy {
    /// Prefer `FIFO_RELAXED`, then the universally supported `FIFO` mode.
    AutoVsync,
    /// Prefer `IMMEDIATE`, then `MAILBOX`, with `FIFO` as the portable fallback.
    AutoNoVsync,
    /// Require one exact Vulkan present mode on every secondary surface.
    Exact(i32),
}

/// Surface format and presentation policy shared by every secondary viewport swapchain.
#[derive(Clone, Copy, Debug, PartialEq, Eq, Structural)]
pub struct ViewportSwapchainPolicy {
    /// Complete surface format and color-space selection policy.
    pub surface_format: SurfaceFormatPolicy,
    /// Presentation timing selection policy.
    pub present_mode: PresentModePolicy,
}

impl ViewportSwapchainPolicy {
    /// Copy the main swapchain's exact surface pair and infer its VSync intent.
    ///
    /// `FIFO` and `FIFO_RELAXED` preserve a VSync policy across heterogeneous surfaces. Other
    /// main-window modes preserve a no-VSync policy while still permitting a portable fallback.
    pub fn from_main_surface(surface_format: SurfaceFormat, present_mode: i32) -> (r: Self)
        ensures
            r.surface_format == SurfaceFormatPolicy::Exact(surface_format),
            r.present_mode == (if present_mode == PRESENT_MODE_FIFO || present_mode
                == PRESENT_MODE_FIFO_RELAXED {
                PresentModePolicy::AutoVsync
            } else {
                PresentModePolicy::AutoNoVsync
            }),
    {
        let present_mode = if present_mode == PRESENT_MODE_FIFO || present_mode
            == PRESENT_MODE_FIFO_RELAXED {
            PresentModePolicy::AutoVsync
        } else {
            PresentModePolicy::AutoNoVsync
        };
        ViewportSwapchainPolicy { surface_format: SurfaceFormatPolicy::Exact(surface_format), present_mode }
    }

    /// Copy the main swapchain's exact surface pair and present mode.
    pub fn exact_from_main_surface(surface_format: SurfaceFormat, present_mode: i32) -> (r: Self)
        ensures
            r.surface_format == SurfaceFormatPolicy::Exact(surface_format),
            r.present_mode == PresentModePolicy::Exact(present_mode),
    {
        ViewportSwapchainPolicy {
            surface_format: SurfaceFormatPolicy::Exact(surface_format),
            present_mode: PresentModePolicy::Exact(present_mode),
        }
    }
}

impl Default for ViewportSwapchainPolicy {
    /// Automatic sRGB selection without VSync.
    fn default() -> (r: Self)
        ensures
            r.surface_format == SurfaceFormatPolicy::AutoSrgb,
            r.present_mode == PresentModePolicy::AutoNoVsync,
    {
        ViewportSwapchainPolicy {
            surface_format: SurfaceFormatPolicy::AutoSrgb,
            present_mode: PresentModePolicy::AutoNoVsync,
        }
    }
}

/// Whether `mode` occurs in `modes`.
fn contains_mode(modes: &[i32], mode: i32) -> (r: bool)
    ensures
        r == modes@.contains(mode),
{
    let mut i: usize = 0;
    while i < modes.len()
        invariant
            i <= modes@.len(),
            forall|j: int| 0 <= j < i ==> modes@[j] != mode,
        decreases modes@.len() - i,
    {
        if modes[i] == mode {
            return true;
        }
        i = i + 1;
    }
    false
}

/// The present mode that `policy` selects among the surface's `modes`.
pub open spec fn resolved_present_mode(policy: PresentModePolicy, modes: Seq<i32>) -> Result<
    i32,
    SurfaceSupportError,
> {
    match policy {
        PresentModePolicy::AutoVsync => if modes.contains(PRESENT_MODE_FIFO_RELAXED) {
            Ok(PRESENT_MODE_FIFO_RELAXED)
        } else {
            Ok(PRESENT_MODE_FIFO)
        },
        PresentModePolicy::AutoNoVsync => if modes.contains(PRESENT_MODE_IMMEDIATE) {
            Ok(PRESENT_MODE_IMMEDIATE)
        } else if modes.contains(PRESENT_MODE_MAILBOX) {
            Ok(PRESENT_MODE_MAILBOX)
        } else {
            Ok(PRESENT_MODE_FIFO)
        },
        PresentModePolicy::Exact(m) => if modes.contains(m) {
            Ok(m)
        } else {
            Err(SurfaceSupportError::PresentModeUnsupported { requested: m })
        },
    }
}

/// Selects the present mode for a secondary viewport swapchain.
pub fn resolve_present_mode(policy: PresentModePolicy, modes: &[i32]) -> (r: Result<
    i32,
    SurfaceSupportError,
>)
    ensures
        r == resolved_present_mode(policy, modes@),
        policy == PresentModePolicy::AutoNoVsync ==> {
            &&& modes@.contains(PRESENT_MODE_IMMEDIATE) ==> r == Ok::<i32, SurfaceSupportError>(
                PRESENT_MODE_IMMEDIATE,
            )
            &&& (!modes@.contains(PRESENT_MODE_IMMEDIATE) && modes@.contains(PRESENT_MODE_MAILBOX))
                ==> r == Ok::<i32, SurfaceSupportError>(PRESENT_MODE_MAILBOX)
            &&& (!modes@.contains(PRESENT_MODE_IMMEDIATE) && !modes@.contains(PRESENT_MODE_MAILBOX))
                ==> r == Ok::<i32, SurfaceSupportError>(PRESENT_MODE_FIFO)
        },
        policy == PresentModePolicy::AutoVsync ==> r == Ok::<i32, SurfaceSupportError>(
            if modes@.contains(PRESENT_MODE_FIFO_RELAXED) {
                PRESENT_MODE_FIFO_RELAXED
            } else {
                PRESENT_MODE_FIFO
            },
        ),
{
    proof {
        law_no_vsync_prefers_immediate_then_mailbox(modes@);
        law_vsync_prefers_relaxed_fifo(modes@);
    }
    match policy {
        PresentModePolicy::AutoVsync => {
            if contains_mode(modes, PRESENT_MODE_FIFO_RELAXED) {
                Ok(PRESENT_MODE_FIFO_RELAXED)
            } else {
                Ok(PRESENT_MODE_FIFO)
            }
        },
        PresentModePolicy::AutoNoVsync => {
            if contains_mode(modes, PRESENT_MODE_IMMEDIATE) {
                Ok(PRESENT_MODE_IMMEDIATE)
            } else if contains_mode(modes, PRESENT_MODE_MAILBOX) {
                Ok(PRESENT_MODE_MAILBOX)
            } else {
                Ok(PRESENT_MODE_FIFO)
            }
        },
        PresentModePolicy::Exact(m) => {
            if contains_mode(modes, m) {
                Ok(m)
            } else {
                Err(SurfaceSupportError::PresentModeUnsupported { requested: m })
            }
        },
    }
}

/// Whether `formats` is the single-entry list that lets the swapchain pick any format.
pub open spec fn is_format_sentinel(formats: Seq<SurfaceFormat>) -> bool {
    formats.len() == 1 && formats[0].format == FORMAT_UNDEFINED
}

/// The surface pair that `policy` selects among the surface's `formats`.
pub open spec fn resolved_surface_format(
    policy: SurfaceFormatPolicy,
    formats: Seq<SurfaceFormat>,
) -> Result<SurfaceFormat, SurfaceSupportError> {
    let srgb = |f: i32| SurfaceFormat { format: f, color_space: COLOR_SPACE_SRGB_NONLINEAR };
    if is_format_sentinel(formats) {
        match policy {
            SurfaceFormatPolicy::AutoSrgb => if formats[0].color_space
                == COLOR_SPACE_SRGB_NONLINEAR {
                Ok(srgb(FORMAT_B8G8R8A8_SRGB))
            } else {
                Err(SurfaceSupportError::SrgbSurfaceFormatUnsupported)
            },
            SurfaceFormatPolicy::Exact(requested) => if requested.format != FORMAT_UNDEFINED
                && requested.color_space == formats[0].color_space {
                Ok(requested)
            } else {
                Err(SurfaceSupportError::SurfaceFormatUnsupported { requested })
            },
        }
    } else {
        match policy {
            SurfaceFormatPolicy::AutoSrgb => if formats.contains(srgb(FORMAT_B8G8R8A8_SRGB)) {
                Ok(srgb(FORMAT_B8G8R8A8_SRGB))
            } else if formats.contains(srgb(FORMAT_R8G8B8A8_SRGB)) {
                Ok(srgb(FORMAT_R8G8B8A8_SRGB))
            } else if formats.contains(srgb(FORMAT_A8B8G8R8_SRGB_PACK32)) {
                Ok(srgb(FORMAT_A8B8G8R8_SRGB_PACK32))
            } else {
                Err(SurfaceSupportError::SrgbSurfaceFormatUnsupported)
            },
            SurfaceFormatPolicy::Exact(requested) => if requested.format != FORMAT_UNDEFINED
                && formats.contains(requested) {
                Ok(requested)
            } else {
                Err(SurfaceSupportError::SurfaceFormatUnsupported { requested })
            },
        }
    }
}

/// Whether `pair` occurs in `formats`.
fn contains_format(formats: &[SurfaceFormat], pair: SurfaceFormat) -> (r: bool)
    ensures
        r == formats@.contains(pair),
{
    let mut i: usize = 0;
    while i < formats.len()
        invariant
            i <= formats@.len(),
            forall|j: int| 0 <= j < i ==> formats@[j] != pair,
        decreases formats@.len() - i,
    {
        if formats[i] == pair {
            return true;
        }
        i = i + 1;
    }
    false
}

/// Selects the surface format and color-space pair for a secondary viewport swapchain.
///
/// A surface that reports the single pair `(UNDEFINED, color_space)` accepts any format in that
/// color space.
pub fn resolve_surface_format(policy: SurfaceFormatPolicy, formats: &[SurfaceFormat]) -> (r:
    Result<SurfaceFormat, SurfaceSupportError>)
    ensures
        r == resolved_surface_format(policy, formats@),
{
    let b8 = SurfaceFormat { format: FORMAT_B8G8R8A8_SRGB, color_space: COLOR_SPACE_SRGB_NONLINEAR };
    let r8 = SurfaceFormat { format: FORMAT_R8G8B8A8_SRGB, color_space: COLOR_SPACE_SRGB_NONLINEAR };
    let a8 = SurfaceFormat {
        format: FORMAT_A8B8G8R8_SRGB_PACK32,
        color_space: COLOR_SPACE_SRGB_NONLINEAR,
    };
    if formats.len() == 1 && formats[0].format == FORMAT_UNDEFINED {
        let color_space = formats[0].color_space;
        match policy {
            SurfaceFormatPolicy::AutoSrgb => {
                if color_space == COLOR_SPACE_SRGB_NONLINEAR {
                    Ok(b8)
                } else {
                    Err(SurfaceSupportError::SrgbSurfaceFormatUnsupported)
                }
            },
            SurfaceFormatPolicy::Exact(requested) => {
                if requested.format != FORMAT_UNDEFINED && requested.color_space == color_space {
                    Ok(requested)
                } else {
                    Err(SurfaceSupportError::SurfaceFormatUnsupported { requested })
                }
            },
        }
    } else {
        match policy {
            SurfaceFormatPolicy::AutoSrgb => {
                if contains_format(formats, b8) {
                    Ok(b8)
                } else if contains_format(formats, r8) {
                    Ok(r8)
                } else if contains_format(formats, a8) {
                    Ok(a8)
                } else {
                    Err(SurfaceSupportError::SrgbSurfaceFormatUnsupported)
                }
            },
            SurfaceFormatPolicy::Exact(requested) => {
                if requested.format != FORMAT_UNDEFINED && contains_format(formats, requested) {
                    Ok(requested)
                } else {
                    Err(SurfaceSupportError::SurfaceFormatUnsupported { requested })
                }
            },
        }
    }
}

/// Smaller of two `u32`.
pub open spec fn min_u32(a: u32, b: u32) -> u32 {
    if a <= b {
        a
    } else {
        b
    }
}

/// Larger of two `u32`.
pub open spec fn max_u32(a: u32, b: u32) -> u32 {
    if a >= b {
        a
    } else {
        b
    }
}

/// The swapchain extent chosen from the surface capabilities and the viewport's desired size.
pub open spec fn selected_extent(capabilities: SurfaceCapabilities, desired: Option<Extent2D>) -> Option<
    Extent2D,
> {
    let current = capabilities.current_extent;
    if current.width != u32::MAX && current.height != u32::MAX {
        if current.width > 0 && current.height > 0 {
            Some(current)
        } else {
            None
        }
    } else {
        match desired {
            None => None,
            Some(d) => {
                let max_w = max_u32(capabilities.max_image_extent.width, capabilities.min_image_extent.width);
                let max_h = max_u32(
                    capabilities.max_image_extent.height,
                    capabilities.min_image_extent.height,
                );
                let e = Extent2D {
                    width: min_u32(max_u32(d.width, capabilities.min_image_extent.width), max_w),
                    height: min_u32(max_u32(d.height, capabilities.min_image_extent.height), max_h),
                };
                if e.width > 0 && e.height > 0 {
                    Some(e)
                } else {
                    None
                }
            },
        }
    }
}

/// Chooses the swapchain extent: the surface's current extent when it has one, otherwise the
/// desired extent clamped to the supported range. `None` means the viewport is paused.
pub fn select_swapchain_extent(capabilities: &SurfaceCapabilities, desired: Option<Extent2D>) -> (r:
    Option<Extent2D>)
    ensures
        r == selected_extent(*capabilities, desired),
{
    let current = capabilities.current_extent;
    if current.width != u32::MAX && current.height != u32::MAX {
        return if current.width > 0 && current.height > 0 {
            Some(current)
        } else {
            None
        };
    }
    let desired = match desired {
        Some(d) => d,
        None => return None,
    };
    let min = capabilities.min_image_extent;
    let max = capabilities.max_image_extent;
    let max_width = if max.width >= min.width {
        max.width
    } else {
        min.width
    };
    let max_height = if max.height >= min.height {
        max.height
    } else {
        min.height
    };
    let w = if desired.width >= min.width {
        desired.width
    } else {
        min.width
    };
    let h = if desired.height >= min.height {
        desired.height
    } else {
        min.height
    };
    let extent = Extent2D {
        width: if w <= max_width {
            w
        } else {
            max_width
        },
        height: if h <= max_height {
            h
        } else {
            max_height
        },
    };
    if extent.width > 0 && extent.height > 0 {
        Some(extent)
    } else {
        None
    }
}

/// Whether a viewport's desired extent changed, which requires rebuilding its swapchain.
pub fn extent_request_changed(previous: Option<Extent2D>, next: Option<Extent2D>) -> (r: bool)
    ensures
        r == (previous != next),
{
    match (previous, next) {
        (None, None) => false,
        (Some(a), Some(b)) => a.width != b.width || a.height != b.height,
        _ => true,
    }
}

/// Checks that the surface supports color attachment plus the `extra` usages; returns the usage
/// flags to request.
pub fn validate_swapchain_image_usage(supported: u32, extra: u32) -> (r: Result<
    u32,
    SurfaceSupportError,
>)
    ensures
        r == (if supported & (IMAGE_USAGE_COLOR_ATTACHMENT_BIT | extra) == (
        IMAGE_USAGE_COLOR_ATTACHMENT_BIT | extra) {
            Ok::<u32, SurfaceSupportError>(IMAGE_USAGE_COLOR_ATTACHMENT_BIT | extra)
        } else {
            Err::<u32, SurfaceSupportError>(
                SurfaceSupportError::ImageUsageUnsupported {
                    required: IMAGE_USAGE_COLOR_ATTACHMENT_BIT | extra,
                    supported,
                },
            )
        }),
{
    let required = IMAGE_USAGE_COLOR_ATTACHMENT_BIT | extra;
    if supported & required == required {
        Ok(required)
    } else {
        Err(SurfaceSupportError::ImageUsageUnsupported { required, supported })
    }
}

/// One more image than the surface minimum, capped by the maximum when there is one.
pub fn swapchain_min_image_count(capabilities: &SurfaceCapabilities) -> (r: u32)
    ensures
        ({
            let desired = if capabilities.min_image_count == u32::MAX {
                u32::MAX
            } else {
                (capabilities.min_image_count + 1) as u32
            };
            r == if capabilities.max_image_count > 0 {
                min_u32(desired, capabilities.max_image_count)
            } else {
                desired
            }
        }),
{
    let desired = capabilities.min_image_count.saturating_add(1);
    if capabilities.max_image_count > 0 && capabilities.max_image_count < desired {
        capabilities.max_image_count
    } else {
        desired
    }
}

/// First supported of opaque, inherit, pre-multiplied and post-multiplied composition; opaque
/// when none is reported.
pub fn select_composite_alpha(supported: u32) -> (r: u32)
    ensures
        r == (if supported & COMPOSITE_ALPHA_OPAQUE_BIT == COMPOSITE_ALPHA_OPAQUE_BIT {
            COMPOSITE_ALPHA_OPAQUE_BIT
        } else if supported & COMPOSITE_ALPHA_INHERIT_BIT == COMPOSITE_ALPHA_INHERIT_BIT {
            COMPOSITE_ALPHA_INHERIT_BIT
        } else if supported & COMPOSITE_ALPHA_PRE_MULTIPLIED_BIT
            == COMPOSITE_ALPHA_PRE_MULTIPLIED_BIT {
            COMPOSITE_ALPHA_PRE_MULTIPLIED_BIT
        } else if supported & COMPOSITE_ALPHA_POST_MULTIPLIED_BIT
            == COMPOSITE_ALPHA_POST_MULTIPLIED_BIT {
            COMPOSITE_ALPHA_POST_MULTIPLIED_BIT
        } else {
            COMPOSITE_ALPHA_OPAQUE_BIT
        }),
{
    if supported & COMPOSITE_ALPHA_OPAQUE_BIT == COMPOSITE_ALPHA_OPAQUE_BIT {
        COMPOSITE_ALPHA_OPAQUE_BIT
    } else if supported & COMPOSITE_ALPHA_INHERIT_BIT == COMPOSITE_ALPHA_INHERIT_BIT {
        COMPOSITE_ALPHA_INHERIT_BIT
    } else if supported & COMPOSITE_ALPHA_PRE_MULTIPLIED_BIT == COMPOSITE_ALPHA_PRE_MULTIPLIED_BIT {
        COMPOSITE_ALPHA_PRE_MULTIPLIED_BIT
    } else if supported & COMPOSITE_ALPHA_POST_MULTIPLIED_BIT
        == COMPOSITE_ALPHA_POST_MULTIPLIED_BIT {
        COMPOSITE_ALPHA_POST_MULTIPLIED_BIT
    } else {
        COMPOSITE_ALPHA_OPAQUE_BIT
    }
}

/// Everything a swapchain (re)creation needs besides Vulkan handles.
#[derive(Clone, Copy, Debug, PartialEq, Eq, Structural)]
pub struct SwapchainPlan {
    /// Image extent.
    pub extent: Extent2D,
    /// Surface format and color space.
    pub surface_format: SurfaceFormat,
    /// Present mode.
    pub present_mode: i32,
    /// Minimum number of swapchain images.
    pub min_image_count: u32,
    /// Composite alpha mode.
    pub composite_alpha: u32,
    /// Image usage flags.
    pub image_usage: u32,
    /// Pre-transform applied by the presentation engine.
    pub pre_transform: u32,
    /// `VkSharingMode`: concurrent when graphics and presentation use different queue families.
    pub sharing_mode: i32,
}

/// Decides the configuration of a secondary viewport swapchain from the surface support that
/// was queried.
///
/// `Ok(None)` means the viewport has no drawable extent and stays paused.
pub fn plan_swapchain(
    capabilities: &SurfaceCapabilities,
    formats: &[SurfaceFormat],
    present_modes: &[i32],
    policy: ViewportSwapchainPolicy,
    desired: Option<Extent2D>,
    graphics_queue_family_index: u32,
    present_queue_family_index: u32,
) -> (r: Result<Option<SwapchainPlan>, SurfaceSupportError>)
    ensures
        selected_extent(*capabilities, desired) is None ==> r == Ok::<
            Option<SwapchainPlan>,
            SurfaceSupportError,
        >(None),
        selected_extent(*capabilities, desired) is Some ==> {
            match (
                resolved_surface_format(policy.surface_format, formats@),
                resolved_present_mode(policy.present_mode, present_modes@),
            ) {
                (Err(e), _) => r == Err::<Option<SwapchainPlan>, SurfaceSupportError>(e),
                (Ok(_), Err(e)) => r == Err::<Option<SwapchainPlan>, SurfaceSupportError>(e),
                (Ok(f), Ok(m)) => r matches Ok(Some(plan)) && {
                    &&& plan.extent == selected_extent(*capabilities, desired).unwrap()
                    &&& plan.surface_format == f
                    &&& plan.present_mode == m
                    &&& plan.min_image_count == swapchain_min_image_count_spec(*capabilities)
                    &&& plan.composite_alpha == composite_alpha_spec(
                        capabilities.supported_composite_alpha,
                    )
                    &&& plan.image_usage == IMAGE_USAGE_COLOR_ATTACHMENT_BIT
                    &&& plan.pre_transform == capabilities.current_transform
                    &&& plan.sharing_mode == (if graphics_queue_family_index
                        != present_queue_family_index {
                        SHARING_MODE_CONCURRENT
                    } else {
                        SHARING_MODE_EXCLUSIVE
                    })
                },
            }
        },
{
    let extent = match select_swapchain_extent(capabilities, desired) {
        Some(e) => e,
        None => return Ok(None),
    };
    let surface_format = match resolve_surface_format(policy.surface_format, formats) {
        Ok(f) => f,
        Err(e) => return Err(e),
    };
    let present_mode = match resolve_present_mode(policy.present_mode, present_modes) {
        Ok(m) => m,
        Err(e) => return Err(e),
    };
    let sharing_mode = if graphics_queue_family_index != present_queue_family_index {
        SHARING_MODE_CONCURRENT
    } else {
        SHARING_MODE_EXCLUSIVE
    };
    Ok(
        Some(
            SwapchainPlan {
                extent,
                surface_format,
                present_mode,
                min_image_count: swapchain_min_image_count(capabilities),
                composite_alpha: select_composite_alpha(capabilities.supported_composite_alpha),
                image_usage: IMAGE_USAGE_COLOR_ATTACHMENT_BIT,
                pre_transform: capabilities.current_transform,
                sharing_mode,
            },
        ),
    )
}

/// Image count that `swapchain_min_image_count` returns.
pub open spec fn swapchain_min_image_count_spec(capabilities: SurfaceCapabilities) -> u32 {
    let desired = if capabilities.min_image_count == u32::MAX {
        u32::MAX
    } else {
        (capabilities.min_image_count + 1) as u32
    };
    if capabilities.max_image_count > 0 {
        min_u32(desired, capabilities.max_image_count)
    } else {
        desired
    }
}

/// Composite alpha mode that `select_composite_alpha` returns.
pub open spec fn composite_alpha_spec(supported: u32) -> u32 {
    if supported & COMPOSITE_ALPHA_OPAQUE_BIT == COMPOSITE_ALPHA_OPAQUE_BIT {
        COMPOSITE_ALPHA_OPAQUE_BIT
    } else if supported & COMPOSITE_ALPHA_INHERIT_BIT == COMPOSITE_ALPHA_INHERIT_BIT {
        COMPOSITE_ALPHA_INHERIT_BIT
    } else if supported & COMPOSITE_ALPHA_PRE_MULTIPLIED_BIT == COMPOSITE_ALPHA_PRE_MULTIPLIED_BIT {
        COMPOSITE_ALPHA_PRE_MULTIPLIED_BIT
    } else if supported & COMPOSITE_ALPHA_POST_MULTIPLIED_BIT
        == COMPOSITE_ALPHA_POST_MULTIPLIED_BIT {
        COMPOSITE_ALPHA_POST_MULTIPLIED_BIT
    } else {
        COMPOSITE_ALPHA_OPAQUE_BIT
    }
}

/// What a surface-support query found, after validation.
#[derive(Clone, Debug, PartialEq, Eq)]
pub struct SurfaceSupport {
    /// Surface capabilities.
    pub capabilities: SurfaceCapabilities,
    /// Nonempty list of supported surface pairs.
    pub formats: Vec<SurfaceFormat>,
    /// Nonempty list of supported present modes.
    pub present_modes: Vec<i32>,
}

/// Validates the answers of the four surface queries, in the order the runtime asks them.
///
/// Each query answer is the raw Vulkan error code on failure. `present_queue_family_index` is
/// the family whose present support was queried.
pub fn check_surface_support(
    surface: u64,
    present_queue_family_index: u32,
    present_supported: Result<bool, i32>,
    capabilities: Result<SurfaceCapabilities, i32>,
    formats: Result<Vec<SurfaceFormat>, i32>,
    present_modes: Result<Vec<i32>, i32>,
) -> (r: Result<SurfaceSupport, SurfaceSupportError>)
    ensures
        surface == 0 ==> r == Err::<SurfaceSupport, SurfaceSupportError>(
            SurfaceSupportError::NullSurface,
        ),
        surface != 0 ==> match (present_supported, capabilities, formats, present_modes) {
            (Err(e), _, _, _) => r == Err::<SurfaceSupport, SurfaceSupportError>(
                SurfaceSupportError::PresentSupportQuery(e),
            ),
            (Ok(false), _, _, _) => r == Err::<SurfaceSupport, SurfaceSupportError>(
                SurfaceSupportError::PresentUnsupported { queue_family_index: present_queue_family_index },
            ),
            (Ok(true), Err(e), _, _) => r == Err::<SurfaceSupport, SurfaceSupportError>(
                SurfaceSupportError::CapabilitiesQuery(e),
            ),
            (Ok(true), Ok(c), _, _) if c.supported_usage_flags & IMAGE_USAGE_COLOR_ATTACHMENT_BIT
                != IMAGE_USAGE_COLOR_ATTACHMENT_BIT => r == Err::<
                SurfaceSupport,
                SurfaceSupportError,
            >(SurfaceSupportError::ColorAttachmentUnsupported),
            (Ok(true), Ok(_), Err(e), _) => r == Err::<SurfaceSupport, SurfaceSupportError>(
                SurfaceSupportError::FormatsQuery(e),
            ),
            (Ok(true), Ok(_), Ok(f), _) if f@.len() == 0 => r == Err::<
                SurfaceSupport,
                SurfaceSupportError,
            >(SurfaceSupportError::NoFormats),
            (Ok(true), Ok(_), Ok(_), Err(e)) => r == Err::<SurfaceSupport, SurfaceSupportError>(
                SurfaceSupportError::PresentModesQuery(e),
            ),
            (Ok(true), Ok(_), Ok(_), Ok(m)) if m@.len() == 0 => r == Err::<
                SurfaceSupport,
                SurfaceSupportError,
            >(SurfaceSupportError::NoPresentModes),
            (Ok(true), Ok(c), Ok(f), Ok(m)) => r matches Ok(s) && s.capabilities == c
                && s.formats@ == f@ && s.present_modes@ == m@,
        },
{
    if surface == 0 {
        return Err(SurfaceSupportError::NullSurface);
    }
    match check_present_support(present_queue_family_index, present_supported) {
        Err(e) => return Err(e),
        Ok(()) => {},
    }
    let capabilities = match check_surface_capabilities(capabilities) {
        Err(e) => return Err(e),
        Ok(c) => c,
    };
    let formats = match check_surface_formats(formats) {
        Err(e) => return Err(e),
        Ok(f) => f,
    };
    let present_modes = match check_present_modes(present_modes) {
        Err(e) => return Err(e),
        Ok(m) => m,
    };
    Ok(SurfaceSupport { capabilities, formats, present_modes })
}

/// First surface question: the present queue family must be able to present to the surface.
pub fn check_present_support(present_queue_family_index: u32, present_supported: Result<bool, i32>) -> (r:
    Result<(), SurfaceSupportError>)
    ensures
        r == match present_supported {
            Err(e) => Err::<(), SurfaceSupportError>(SurfaceSupportError::PresentSupportQuery(e)),
            Ok(false) => Err::<(), SurfaceSupportError>(
                SurfaceSupportError::PresentUnsupported { queue_family_index: present_queue_family_index },
            ),
            Ok(true) => Ok::<(), SurfaceSupportError>(()),
        },
{
    match present_supported {
        Err(e) => Err(SurfaceSupportError::PresentSupportQuery(e)),
        Ok(false) => Err(
            SurfaceSupportError::PresentUnsupported { queue_family_index: present_queue_family_index },
        ),
        Ok(true) => Ok(()),
    }
}

/// Second surface question: the surface's images must be usable as color attachments.
pub fn check_surface_capabilities(capabilities: Result<SurfaceCapabilities, i32>) -> (r: Result<
    SurfaceCapabilities,
    SurfaceSupportError,
>)
    ensures
        r == match capabilities {
            Err(e) => Err::<SurfaceCapabilities, SurfaceSupportError>(
                SurfaceSupportError::CapabilitiesQuery(e),
            ),
            Ok(c) => if c.supported_usage_flags & IMAGE_USAGE_COLOR_ATTACHMENT_BIT
                != IMAGE_USAGE_COLOR_ATTACHMENT_BIT {
                Err::<SurfaceCapabilities, SurfaceSupportError>(
                    SurfaceSupportError::ColorAttachmentUnsupported,
                )
            } else {
                Ok::<SurfaceCapabilities, SurfaceSupportError>(c)
            },
        },
{
    match capabilities {
        Err(e) => Err(SurfaceSupportError::CapabilitiesQuery(e)),
        Ok(c) => if c.supported_usage_flags & IMAGE_USAGE_COLOR_ATTACHMENT_BIT
            != IMAGE_USAGE_COLOR_ATTACHMENT_BIT {
            Err(SurfaceSupportError::ColorAttachmentUnsupported)
        } else {
            Ok(c)
        },
    }
}

/// Third surface question: the surface must offer at least one format.
pub fn check_surface_formats(formats: Result<Vec<SurfaceFormat>, i32>) -> (r: Result<
    Vec<SurfaceFormat>,
    SurfaceSupportError,
>)
    ensures
        match formats {
            Err(e) => r == Err::<Vec<SurfaceFormat>, SurfaceSupportError>(
                SurfaceSupportError::FormatsQuery(e),
            ),
            Ok(f) => if f@.len() == 0 {
                r == Err::<Vec<SurfaceFormat>, SurfaceSupportError>(SurfaceSupportError::NoFormats)
            } else {
                r matches Ok(g) && g@ == f@
            },
        },
{
    match formats {
        Err(e) => Err(SurfaceSupportError::FormatsQuery(e)),
        Ok(f) => if f.len() == 0 {
            Err(SurfaceSupportError::NoFormats)
        } else {
            Ok(f)
        },
    }
}

/// Fourth surface question: the surface must offer at least one present mode.
pub fn check_present_modes(present_modes: Result<Vec<i32>, i32>) -> (r: Result<
    Vec<i32>,
    SurfaceSupportError,
>)
    ensures
        match present_modes {
            Err(e) => r == Err::<Vec<i32>, SurfaceSupportError>(
                SurfaceSupportError::PresentModesQuery(e),
            ),
            Ok(m) => if m@.len() == 0 {
                r == Err::<Vec<i32>, SurfaceSupportError>(SurfaceSupportError::NoPresentModes)
            } else {
                r matches Ok(n) && n@ == m@
            },
        },
{
    match present_modes {
        Err(e) => Err(SurfaceSupportError::PresentModesQuery(e)),
        Ok(m) => if m.len() == 0 {
            Err(SurfaceSupportError::NoPresentModes)
        } else {
            Ok(m)
        },
    }
}

/// The first pair in `formats` whose format is `format`.
pub open spec fn first_with_format(formats: Seq<SurfaceFormat>, format: i32) -> Option<SurfaceFormat>
    decreases formats.len(),
{
    if formats.len() == 0 {
        None
    } else if formats[0].format == format {
        Some(formats[0])
    } else {
        first_with_format(formats.drop_first(), format)
    }
}

/// The pair that the window-backed viewport swapchain uses: the sRGB BGRA pair when the surface
/// accepts any format; else the first pair with the first available format among BGRA sRGB,
/// RGBA sRGB, BGRA UNORM and RGBA UNORM; else the first reported pair; else BGRA UNORM with
/// the sRGB nonlinear color space.
pub open spec fn picked_surface_format(formats: Seq<SurfaceFormat>) -> SurfaceFormat {
    if is_format_sentinel(formats) {
        SurfaceFormat { format: FORMAT_B8G8R8A8_SRGB, color_space: COLOR_SPACE_SRGB_NONLINEAR }
    } else if first_with_format(formats, FORMAT_B8G8R8A8_SRGB) is Some {
        first_with_format(formats, FORMAT_B8G8R8A8_SRGB).unwrap()
    } else if first_with_format(formats, FORMAT_R8G8B8A8_SRGB) is Some {
        first_with_format(formats, FORMAT_R8G8B8A8_SRGB).unwrap()
    } else if first_with_format(formats, FORMAT_B8G8R8A8_UNORM) is Some {
        first_with_format(formats, FORMAT_B8G8R8A8_UNORM).unwrap()
    } else if first_with_format(formats, FORMAT_R8G8B8A8_UNORM) is Some {
        first_with_format(formats, FORMAT_R8G8B8A8_UNORM).unwrap()
    } else if formats.len() > 0 {
        formats[0]
    } else {
        SurfaceFormat { format: FORMAT_B8G8R8A8_UNORM, color_space: COLOR_SPACE_SRGB_NONLINEAR }
    }
}

/// Preference of a surface format for a window-backed viewport: 8-bit sRGB BGRA first, then
/// sRGB RGBA, then UNORM BGRA, then UNORM RGBA; every other format last.
pub open spec fn surface_format_rank(format: i32) -> int {
    if format == FORMAT_B8G8R8A8_SRGB {
        0
    } else if format == FORMAT_R8G8B8A8_SRGB {
        1
    } else if format == FORMAT_B8G8R8A8_UNORM {
        2
    } else if format == FORMAT_R8G8B8A8_UNORM {
        3
    } else {
        4
    }
}

/// `first_with_format` finds a pair exactly when one has the format, and then the earliest one.
pub proof fn lemma_first_with_format(formats: Seq<SurfaceFormat>, format: i32)
    ensures
        first_with_format(formats, format) is Some <==> exists|i: int|
            0 <= i < formats.len() && (#[trigger] formats[i]).format == format,
        first_with_format(formats, format) matches Some(p) ==> exists|j: int|
            0 <= j < formats.len() && #[trigger] formats[j] == p && p.format == format && forall|k: int|
                0 <= k < j ==> (#[trigger] formats[k]).format != format,
    decreases formats.len(),
{
    if formats.len() > 0 {
        let rest = formats.drop_first();
        lemma_first_with_format(rest, format);
        assert forall|i: int| 0 <= i < rest.len() implies #[trigger] rest[i] == formats[i + 1] by {}
        if formats[0].format == format {
            assert(formats[0] == first_with_format(formats, format)->0);
        } else {
            if exists|i: int| 0 <= i < formats.len() && (#[trigger] formats[i]).format == format {
                let i = choose|i: int| 0 <= i < formats.len() && (#[trigger] formats[i]).format == format;
                assert(rest[i - 1].format == format);
            }
            if first_with_format(rest, format) is Some {
                let p = first_with_format(rest, format)->0;
                let j = choose|j: int|
                    0 <= j < rest.len() && #[trigger] rest[j] == p && p.format == format && forall|k: int|
                        0 <= k < j ==> (#[trigger] rest[k]).format != format;
                assert(formats[j + 1] == p);
                assert forall|k: int| 0 <= k < j + 1 implies (#[trigger] formats[k]).format != format by {
                    if k > 0 {
                        assert(formats[k] == rest[k - 1]);
                    }
                }
            }
        }
    }
}

/// The pair picked for a window-backed viewport: when the surface reports pairs (and not the
/// accept-anything sentinel), it is the earliest reported pair with its format, and no reported
/// format is preferred over it; without a preferred format it is the first reported pair. The
/// sentinel gives sRGB BGRA, and an empty report gives UNORM BGRA, both in the sRGB nonlinear
/// color space.
pub proof fn law_surface_format_preference(formats: Seq<SurfaceFormat>)
    ensures
        ({
            let r = picked_surface_format(formats);
            &&& (!is_format_sentinel(formats) && formats.len() > 0) ==> {
                &&& exists|j: int|
                    0 <= j < formats.len() && #[trigger] formats[j] == r && forall|k: int|
                        0 <= k < j ==> (#[trigger] formats[k]).format != r.format
                &&& forall|i: int|
                    0 <= i < formats.len() ==> surface_format_rank((#[trigger] formats[i]).format)
                        >= surface_format_rank(r.format)
                &&& surface_format_rank(r.format) == 4 ==> r == formats[0]
            }
            &&& is_format_sentinel(formats) ==> r == (SurfaceFormat {
                format: FORMAT_B8G8R8A8_SRGB,
                color_space: COLOR_SPACE_SRGB_NONLINEAR,
            })
            &&& formats.len() == 0 ==> r == (SurfaceFormat {
                format: FORMAT_B8G8R8A8_UNORM,
                color_space: COLOR_SPACE_SRGB_NONLINEAR,
            })
        }),
{
    lemma_first_with_format(formats, FORMAT_B8G8R8A8_SRGB);
    lemma_first_with_format(formats, FORMAT_R8G8B8A8_SRGB);
    lemma_first_with_format(formats, FORMAT_B8G8R8A8_UNORM);
    lemma_first_with_format(formats, FORMAT_R8G8B8A8_UNORM);
    let r = picked_surface_format(formats);
    if !is_format_sentinel(formats) && formats.len() > 0 {
        if first_with_format(formats, FORMAT_B8G8R8A8_SRGB) is None && first_with_format(
            formats,
            FORMAT_R8G8B8A8_SRGB,
        ) is None && first_with_format(formats, FORMAT_B8G8R8A8_UNORM) is None && first_with_format(
            formats,
            FORMAT_R8G8B8A8_UNORM,
        ) is None {
            assert(r == formats[0]);
            assert(surface_format_rank(formats[0].format) == 4);
            assert(formats[0] == r);
        }
    }
}

/// Finds the first pair in `formats` whose format is `format`.
fn find_format(formats: &[SurfaceFormat], format: i32) -> (r: Option<SurfaceFormat>)
    ensures
        r == first_with_format(formats@, format),
{
    let mut i: usize = 0;
    assert(formats@.subrange(0, formats@.len() as int) =~= formats@);
    while i < formats.len()
        invariant
            i <= formats@.len(),
            first_with_format(formats@, format) == first_with_format(
                formats@.subrange(i as int, formats@.len() as int),
                format,
            ),
        decreases formats@.len() - i,
    {
        assert(formats@.subrange(i as int, formats@.len() as int).drop_first() =~= formats@.subrange(
            i + 1,
            formats@.len() as int,
        ));
        if formats[i].format == format {
            return Some(formats[i]);
        }
        i = i + 1;
    }
    assert(formats@.subrange(i as int, formats@.len() as int).len() == 0);
    None
}

/// Chooses the surface pair of a window-backed viewport swapchain from the reported `formats`.
pub fn pick_surface_format(formats: &[SurfaceFormat]) -> (r: SurfaceFormat)
    ensures
        r == picked_surface_format(formats@),
        (!is_format_sentinel(formats@) && formats@.len() > 0) ==> {
            &&& exists|j: int|
                0 <= j < formats@.len() && #[trigger] formats@[j] == r && forall|k: int|
                    0 <= k < j ==> (#[trigger] formats@[k]).format != r.format
            &&& forall|i: int|
                0 <= i < formats@.len() ==> surface_format_rank((#[trigger] formats@[i]).format)
                    >= surface_format_rank(r.format)
            &&& surface_format_rank(r.format) == 4 ==> r == formats@[0]
        },
{
    proof {
        law_surface_format_preference(formats@);
    }
    if formats.len() == 1 && formats[0].format == FORMAT_UNDEFINED {
        return SurfaceFormat { format: FORMAT_B8G8R8A8_SRGB, color_space: COLOR_SPACE_SRGB_NONLINEAR };
    }
    if let Some(f) = find_format(formats, FORMAT_B8G8R8A8_SRGB) {
        return f;
    }
    if let Some(f) = find_format(formats, FORMAT_R8G8B8A8_SRGB) {
        return f;
    }
    if let Some(f) = find_format(formats, FORMAT_B8G8R8A8_UNORM) {
        return f;
    }
    if let Some(f) = find_format(formats, FORMAT_R8G8B8A8_UNORM) {
        return f;
    }
    if formats.len() > 0 {
        formats[0]
    } else {
        SurfaceFormat { format: FORMAT_B8G8R8A8_UNORM, color_space: COLOR_SPACE_SRGB_NONLINEAR }
    }
}

/// Chooses the present mode of a window-backed viewport swapchain: mailbox when reported, FIFO
/// otherwise.
pub fn pick_present_mode(modes: &[i32]) -> (r: i32)
    ensures
        r == if modes@.contains(PRESENT_MODE_MAILBOX) {
            PRESENT_MODE_MAILBOX
        } else {
            PRESENT_MODE_FIFO
        },
{
    if contains_mode(modes, PRESENT_MODE_MAILBOX) {
        PRESENT_MODE_MAILBOX
    } else {
        PRESENT_MODE_FIFO
    }
}

/// Without vertical sync, `IMMEDIATE` wins whenever the surface reports it; `MAILBOX` is chosen
/// only when `IMMEDIATE` is missing and `MAILBOX` reported; `FIFO` only when neither is reported.
pub proof fn law_no_vsync_prefers_immediate_then_mailbox(modes: Seq<i32>)
    ensures
        resolved_present_mode(PresentModePolicy::AutoNoVsync, modes) is Ok,
        ({
            let m = resolved_present_mode(PresentModePolicy::AutoNoVsync, modes)->Ok_0;
            &&& modes.contains(PRESENT_MODE_IMMEDIATE) ==> m == PRESENT_MODE_IMMEDIATE
            &&& m == PRESENT_MODE_MAILBOX ==> !modes.contains(PRESENT_MODE_IMMEDIATE) && modes.contains(
                PRESENT_MODE_MAILBOX,
            )
            &&& (!modes.contains(PRESENT_MODE_IMMEDIATE) && modes.contains(PRESENT_MODE_MAILBOX)) ==> m
                == PRESENT_MODE_MAILBOX
            &&& m == PRESENT_MODE_FIFO ==> !modes.contains(PRESENT_MODE_IMMEDIATE) && !modes.contains(
                PRESENT_MODE_MAILBOX,
            )
            &&& (m == PRESENT_MODE_IMMEDIATE || m == PRESENT_MODE_MAILBOX || m == PRESENT_MODE_FIFO)
        }),
{
}

/// With vertical sync, `FIFO_RELAXED` is chosen exactly when the surface reports it; otherwise
/// the universally supported `FIFO`.
pub proof fn law_vsync_prefers_relaxed_fifo(modes: Seq<i32>)
    ensures
        resolved_present_mode(PresentModePolicy::AutoVsync, modes) is Ok,
        (resolved_present_mode(PresentModePolicy::AutoVsync, modes)->Ok_0 == PRESENT_MODE_FIFO_RELAXED)
            <==> modes.contains(PRESENT_MODE_FIFO_RELAXED),
        !modes.contains(PRESENT_MODE_FIFO_RELAXED) ==> resolved_present_mode(
            PresentModePolicy::AutoVsync,
            modes,
        )->Ok_0 == PRESENT_MODE_FIFO,
{
}

/// The selected present mode is one the surface supports, given that every surface supports
/// FIFO presentation.
pub proof fn law_present_mode_supported(policy: PresentModePolicy, modes: Seq<i32>)
    requires
        modes.contains(PRESENT_MODE_FIFO),
    ensures
        resolved_present_mode(policy, modes) matches Ok(m) ==> modes.contains(m),
{
}

/// The selected surface format is one the surface reports, unless the surface accepts any
/// format; then it keeps the reported color space.
pub proof fn law_surface_format_supported(policy: SurfaceFormatPolicy, formats: Seq<SurfaceFormat>)
    ensures
        !is_format_sentinel(formats) ==> (resolved_surface_format(policy, formats) matches Ok(f)
            ==> formats.contains(f)),
        is_format_sentinel(formats) ==> (resolved_surface_format(policy, formats) matches Ok(f)
            ==> f.color_space == formats[0].color_space && f.format != FORMAT_UNDEFINED),
{
}

/// Without a current extent, the selected extent lies within the surface's supported range.
pub proof fn law_extent_within_capabilities(capabilities: SurfaceCapabilities, desired: Option<Extent2D>)
    requires
        capabilities.current_extent.width == u32::MAX || capabilities.current_extent.height
            == u32::MAX,
        capabilities.min_image_extent.width <= capabilities.max_image_extent.width,
        capabilities.min_image_extent.height <= capabilities.max_image_extent.height,
    ensures
        selected_extent(capabilities, desired) matches Some(e) ==> {
            &&& capabilities.min_image_extent.width <= e.width <= capabilities.max_image_extent.width
            &&& capabilities.min_image_extent.height <= e.height
                <= capabilities.max_image_extent.height
        },
{
}

} // verus!
