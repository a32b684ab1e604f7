//! State machines of the multi-viewport runtime: per-viewport acquire state, runtime lifecycle,
//! fault queue, and the checks made before renderer callbacks are installed.

use crate::error::RendererError;
use crate::swapchain::SurfaceSupportError;
use crate::vulkan_values::{
    ATTACHMENT_LOAD_OP_CLEAR, ATTACHMENT_LOAD_OP_DONT_CARE, FORMAT_A8B8G8R8_SRGB_PACK32,
    FORMAT_B8G8R8A8_SRGB, FORMAT_R8G8B8A8_SRGB, QUEUE_GRAPHICS_BIT, RESULT_ERROR_DEVICE_LOST, RESULT_ERROR_OUT_OF_DATE_KHR, RESULT_SUBOPTIMAL_KHR,
};
use vstd::prelude::*;

verus! {

/// Failure to create a Vulkan surface for a secondary viewport.
#[derive(Clone, Copy, Debug, PartialEq, Eq, Structural)]
pub enum SurfaceCreateError {
    /// The viewport has no platform window handle.
    MissingPlatformHandle,
    /// The platform display handle is unavailable.
    DisplayHandleUnavailable,
    /// The platform window handle is unavailable.
    WindowHandleUnavailable,
    /// Vulkan surface creation failed with this raw result.
    Vulkan(i32),
    /// The platform's surface callback failed.
    PlatformCallbackFailed { code: i32, surface: u64 },
}

/// Failure to attach or operate an owning Ash multi-viewport route.
///
/// Context identities appear as their raw 64-bit values.
#[derive(Clone, Debug, PartialEq, Eq)]
pub enum AshViewportError {
    /// The underlying Ash renderer operation failed.
    Renderer(RendererError),
    /// The runtime and supplied Context identities differ.
    ContextMismatch { expected: u64, actual: u64 },
    /// A prepared frame or completion was passed to a different attached runtime instance.
    FrameTransactionRuntimeMismatch { expected: u64, actual: u64 },
    /// A callback entry was not running under this runtime's Context.
    BoundContextMismatch { expected: u64 },
    /// Renderer callbacks require an attached platform runtime.
    PlatformBackendUnavailable,
    /// A required platform callback is absent.
    PlatformCallbackUnavailable { callback: &'static str },
    /// Another renderer owns one renderer callback slot.
    RendererCallbackOccupied { callback: &'static str },
    /// Another renderer already advertises multi-viewport renderer support.
    RendererViewportCapabilityOccupied,
    /// This runtime's renderer capability bit was cleared while it remained attached.
    RendererViewportCapabilityLost,
    /// A callback claimed by this runtime was replaced while attached.
    RendererCallbackReplaced { callback: &'static str },
    /// A secondary viewport already contains renderer-owned user data.
    RendererUserDataOccupied,
    /// A callback observed foreign or unregistered renderer user data.
    RendererUserDataOwnershipLost { callback: &'static str },
    /// Existing platform windows would miss the renderer create callback.
    PlatformWindowsAlreadyCreated,
    /// The aggregate size callback cannot be bridged safely by this artifact.
    AggregateCallbackHooksUnavailable,
    /// The registry already contains a live runtime for this Context.
    RuntimeAlreadyAttached,
    /// The runtime has shut down or Context-owned teardown has started.
    RuntimeDetached,
    /// A secondary-viewport frame trace is already active for this runtime.
    FrameTraceAlreadyActive,
    /// The renderer is already mutably borrowed by another runtime entry.
    CallbackReentered { callback: &'static str },
    /// A callback panic was contained at the C ABI boundary.
    CallbackPanicked { callback: &'static str },
    /// Dear ImGui passed an invalid viewport to a renderer callback.
    InvalidCallbackArgument { callback: &'static str },
    /// Creating a secondary Vulkan surface failed.
    SurfaceCreate(SurfaceCreateError),
    /// The validation surface cannot support the configured runtime.
    SurfaceUnsupported(SurfaceSupportError),
    /// The physical device handle is null.
    NullPhysicalDevice,
    /// The presentation queue handle is null.
    NullPresentQueue,
    /// The graphics queue family is outside the physical-device table.
    GraphicsQueueFamilyOutOfRange { queue_family_index: u32, queue_family_count: usize },
    /// The presentation queue family is outside the physical-device table.
    PresentQueueFamilyOutOfRange { queue_family_index: u32, queue_family_count: usize },
    /// The graphics queue family cannot execute graphics commands.
    GraphicsQueueFamilyUnsupported { queue_family_index: u32 },
    /// A configured queue family exposes no queues.
    QueueFamilyEmpty { queue_family_index: u32 },
    /// Waiting for Vulkan completion failed and resources were retained for retry.
    DeviceCompletionFailed { operation: &'static str, source: i32 },
    /// The logical device entered the terminal lost state during cleanup.
    DeviceLost { operation: &'static str },
}

/// Whether a fault raised by a native callback ends the runtime: panics, device loss, lost
/// ownership of viewport data, and replaced renderer state are terminal; everything else can be
/// retried.
pub open spec fn is_terminal_fault(fault: AshViewportError) -> bool {
    match fault {
        AshViewportError::CallbackPanicked { .. } => true,
        AshViewportError::DeviceLost { .. } => true,
        AshViewportError::RendererUserDataOwnershipLost { .. } => true,
        AshViewportError::Renderer(RendererError::Vulkan(code)) => code == RESULT_ERROR_DEVICE_LOST,
        AshViewportError::Renderer(RendererError::RendererStateReplaced { .. }) => true,
        AshViewportError::SurfaceCreate(SurfaceCreateError::Vulkan(code)) => code
            == RESULT_ERROR_DEVICE_LOST,
        AshViewportError::SurfaceUnsupported(SurfaceSupportError::PresentSupportQuery(code)) => code
            == RESULT_ERROR_DEVICE_LOST,
        AshViewportError::SurfaceUnsupported(SurfaceSupportError::CapabilitiesQuery(code)) => code
            == RESULT_ERROR_DEVICE_LOST,
        AshViewportError::SurfaceUnsupported(SurfaceSupportError::FormatsQuery(code)) => code
            == RESULT_ERROR_DEVICE_LOST,
        AshViewportError::SurfaceUnsupported(SurfaceSupportError::PresentModesQuery(code)) => code
            == RESULT_ERROR_DEVICE_LOST,
        _ => false,
    }
}

/// Classifies a fault raised by a native callback or a callback-scoped Vulkan operation.
pub fn entry_fault_is_terminal(fault: &AshViewportError) -> (r: bool)
    ensures
        r == is_terminal_fault(*fault),
{
    match fault {
        AshViewportError::CallbackPanicked { .. } => true,
        AshViewportError::DeviceLost { .. } => true,
        AshViewportError::RendererUserDataOwnershipLost { .. } => true,
        AshViewportError::Renderer(RendererError::Vulkan(code)) => *code == RESULT_ERROR_DEVICE_LOST,
        AshViewportError::Renderer(RendererError::RendererStateReplaced { .. }) => true,
        AshViewportError::SurfaceCreate(SurfaceCreateError::Vulkan(code)) => *code
            == RESULT_ERROR_DEVICE_LOST,
        AshViewportError::SurfaceUnsupported(SurfaceSupportError::PresentSupportQuery(code)) => *code
            == RESULT_ERROR_DEVICE_LOST,
        AshViewportError::SurfaceUnsupported(SurfaceSupportError::CapabilitiesQuery(code)) => *code
            == RESULT_ERROR_DEVICE_LOST,
        AshViewportError::SurfaceUnsupported(SurfaceSupportError::FormatsQuery(code)) => *code
            == RESULT_ERROR_DEVICE_LOST,
        AshViewportError::SurfaceUnsupported(SurfaceSupportError::PresentModesQuery(code)) => *code
            == RESULT_ERROR_DEVICE_LOST,
        _ => false,
    }
}

/// Outcome of waiting for the device to become idle.
#[derive(Clone, Copy, Debug, PartialEq, Eq, Structural)]
pub enum DeviceIdleOutcome {
    /// All submitted work completed.
    Complete,
    /// The device was lost; its work is gone and resources may be reclaimed.
    DeviceLost,
}

/// Device loss is terminal but reported as an outcome; other wait failures stay errors so the
/// caller can retry.
pub fn classify_device_idle(result: Result<(), i32>) -> (r: Result<DeviceIdleOutcome, i32>)
    ensures
        result is Ok ==> r == Ok::<DeviceIdleOutcome, i32>(DeviceIdleOutcome::Complete),
        result matches Err(code) ==> r == if code == RESULT_ERROR_DEVICE_LOST {
            Ok::<DeviceIdleOutcome, i32>(DeviceIdleOutcome::DeviceLost)
        } else {
            Err::<DeviceIdleOutcome, i32>(code)
        },
{
    match result {
        Ok(()) => Ok(DeviceIdleOutcome::Complete),
        Err(code) => {
            if code == RESULT_ERROR_DEVICE_LOST {
                Ok(DeviceIdleOutcome::DeviceLost)
            } else {
                Err(code)
            }
        },
    }
}

/// The state after opening an acquire transaction on frame slot `frame_index`; `None` when
/// refused.
pub open spec fn acquire_begun(state: ViewportRuntimeState, frame_index: usize) -> Option<ViewportRuntimeState> {
    if state == ViewportRuntimeState::Active {
        Some(ViewportRuntimeState::AcquireRecoveryRequired { frame_index })
    } else {
        None
    }
}

/// The state after closing the acquire transaction of frame slot `frame_index`; `None` when
/// refused.
pub open spec fn acquire_finished(state: ViewportRuntimeState, frame_index: usize) -> Option<ViewportRuntimeState> {
    if state == (ViewportRuntimeState::AcquireRecoveryRequired { frame_index }) {
        Some(ViewportRuntimeState::Active)
    } else {
        None
    }
}

/// Render state of one secondary viewport.
#[derive(Clone, Copy, Debug, PartialEq, Eq, Structural)]
pub enum ViewportRuntimeState {
    /// The swapchain is usable.
    Active,
    /// The window has no drawable extent.
    Paused,
    /// The swapchain must be rebuilt before the next acquire.
    RebuildRequired,
    /// An image was acquired for this frame slot and its synchronization objects may be poisoned
    /// until the frame is submitted or recovered.
    AcquireRecoveryRequired { frame_index: usize },
    /// The viewport can no longer render.
    Failed,
}

impl ViewportRuntimeState {
    /// Only an active viewport may acquire a swapchain image.
    pub fn can_acquire(self) -> (r: bool)
        ensures
            r == (self == ViewportRuntimeState::Active),
    {
        match self {
            ViewportRuntimeState::Active => true,
            _ => false,
        }
    }

    /// The frame slot whose acquire must be recovered, if any.
    pub open spec fn recovery_frame_index_spec(self) -> Option<usize> {
        match self {
            ViewportRuntimeState::AcquireRecoveryRequired { frame_index } => Some(frame_index),
            _ => None,
        }
    }

    /// The frame slot whose acquire must be recovered, if any.
    pub fn recovery_frame_index(self) -> (r: Option<usize>)
        ensures
            r == self.recovery_frame_index_spec(),
    {
        match self {
            ViewportRuntimeState::AcquireRecoveryRequired { frame_index } => Some(frame_index),
            _ => None,
        }
    }

    /// Marks the start of an acquire on frame slot `frame_index`; refused unless active.
    pub fn begin_acquire(&mut self, frame_index: usize) -> (r: bool)
        ensures
            r == acquire_begun(*old(self), frame_index) is Some,
            r ==> *final(self) == acquire_begun(*old(self), frame_index)->0,
            !r ==> *final(self) == *old(self),
    {
        if self.can_acquire() {
            *self = ViewportRuntimeState::AcquireRecoveryRequired { frame_index };
            true
        } else {
            false
        }
    }

    /// Marks the frame acquired on slot `frame_index` as submitted; refused for any other state.
    pub fn finish_acquire(&mut self, frame_index: usize) -> (r: bool)
        ensures
            r == acquire_finished(*old(self), frame_index) is Some,
            r ==> *final(self) == acquire_finished(*old(self), frame_index)->0,
            !r ==> *final(self) == *old(self),
    {
        match *self {
            ViewportRuntimeState::AcquireRecoveryRequired { frame_index: pending } => {
                if pending == frame_index {
                    *self = ViewportRuntimeState::Active;
                    true
                } else {
                    false
                }
            },
            _ => false,
        }
    }
}

/// Recovers a frame slot whose acquired image was abandoned.
///
/// Waits for the device; on completion replaces the slot's synchronization objects and requires
/// a swapchain rebuild; on device loss fails the viewport. Any error leaves the state poisoned so
/// that the next entry retries.
pub fn advance_acquired_frame_recovery<W, S>(
    state: &mut ViewportRuntimeState,
    wait_device_idle: W,
    replace_sync: S,
) -> (r: Result<DeviceIdleOutcome, AshViewportError>)
    where
        W: FnOnce() -> Result<DeviceIdleOutcome, AshViewportError>,
        S: FnOnce(usize) -> Result<(), AshViewportError>,
    requires
        call_requires(wait_device_idle, ()),
        forall|k: usize| call_requires(replace_sync, (k,)),
    ensures
        match *old(state) {
            ViewportRuntimeState::AcquireRecoveryRequired { frame_index } => match r {
                Ok(DeviceIdleOutcome::Complete) => {
                    &&& *final(state) == ViewportRuntimeState::RebuildRequired
                    &&& call_ensures(
                        wait_device_idle,
                        (),
                        Ok::<DeviceIdleOutcome, AshViewportError>(DeviceIdleOutcome::Complete),
                    )
                    &&& exists|o: Result<(), AshViewportError>|
                        o is Ok && #[trigger] call_ensures(replace_sync, (frame_index,), o)
                },
                Ok(DeviceIdleOutcome::DeviceLost) => {
                    &&& *final(state) == ViewportRuntimeState::Failed
                    &&& call_ensures(
                        wait_device_idle,
                        (),
                        Ok::<DeviceIdleOutcome, AshViewportError>(DeviceIdleOutcome::DeviceLost),
                    )
                },
                Err(e) => {
                    &&& *final(state) == *old(state)
                    &&& {
                        ||| call_ensures(
                            wait_device_idle,
                            (),
                            Err::<DeviceIdleOutcome, AshViewportError>(e),
                        )
                        ||| {
                            &&& call_ensures(
                                wait_device_idle,
                                (),
                                Ok::<DeviceIdleOutcome, AshViewportError>(
                                    DeviceIdleOutcome::Complete,
                                ),
                            )
                            &&& call_ensures(
                                replace_sync,
                                (frame_index,),
                                Err::<(), AshViewportError>(e),
                            )
                        }
                    }
                },
            },
            _ => {
                &&& r == Err::<DeviceIdleOutcome, AshViewportError>(
                    AshViewportError::InvalidCallbackArgument {
                        callback: "recover viewport acquire state",
                    },
                )
                &&& *final(state) == *old(state)
            },
        },
{
    let frame_index = match state.recovery_frame_index() {
        Some(i) => i,
        None => {
            return Err(
                AshViewportError::InvalidCallbackArgument { callback: "recover viewport acquire state" },
            )
        },
    };
    let waited = wait_device_idle();
    match waited {
        Err(e) => Err(e),
        Ok(DeviceIdleOutcome::Complete) => {
            let replaced = replace_sync(frame_index);
            match replaced {
                Err(e) => Err(e),
                Ok(()) => {
                    *state = ViewportRuntimeState::RebuildRequired;
                    Ok(DeviceIdleOutcome::Complete)
                },
            }
        },
        Ok(DeviceIdleOutcome::DeviceLost) => {
            *state = ViewportRuntimeState::Failed;
            Ok(DeviceIdleOutcome::DeviceLost)
        },
    }
}

/// Runs `recover` before reporting the failure of a step taken after a successful acquire.
pub fn recover_acquired_step<T, F>(result: Result<T, RendererError>, recover: F) -> (r: Result<
    T,
    AshViewportError,
>)
    where
        F: FnOnce() -> Result<(), AshViewportError>,
    requires
        call_requires(recover, ()),
    ensures
        match result {
            Ok(v) => r == Ok::<T, AshViewportError>(v),
            Err(e) => match r {
                Ok(_) => false,
                Err(f) => {
                    ||| {
                        &&& f == AshViewportError::Renderer(e)
                        &&& exists|o: Result<(), AshViewportError>|
                            o is Ok && #[trigger] call_ensures(recover, (), o)
                    }
                    ||| call_ensures(recover, (), Err::<(), AshViewportError>(f))
                },
            },
        },
{
    match result {
        Ok(value) => Ok(value),
        Err(error) => {
            let recovered = recover();
            match recovered {
                Ok(()) => Err(AshViewportError::Renderer(error)),
                Err(f) => Err(f),
            }
        },
    }
}

/// Whether secondary viewports with these (platform window exists, renderer data address)
/// states can receive a renderer: renderer data anywhere refuses first, then a created window.
pub open spec fn secondary_viewports_result(states: Seq<(bool, usize)>) -> Result<(), AshViewportError> {
    if exists|i: int| 0 <= i < states.len() && #[trigger] states[i].1 != 0 {
        Err(AshViewportError::RendererUserDataOccupied)
    } else if exists|i: int| 0 <= i < states.len() && #[trigger] states[i].0 {
        Err(AshViewportError::PlatformWindowsAlreadyCreated)
    } else {
        Ok(())
    }
}

/// Rejects attachment while a secondary viewport already carries renderer data (non-null
/// `renderer_user_data`) or already has a platform window.
pub fn validate_secondary_viewports(states: &[(bool, usize)]) -> (r: Result<(), AshViewportError>)
    ensures
        r == secondary_viewports_result(states@),
{
    let mut i: usize = 0;
    while i < states.len()
        invariant
            i <= states@.len(),
            forall|j: int| 0 <= j < i ==> #[trigger] states@[j].1 == 0,
        decreases states@.len() - i,
    {
        if states[i].1 != 0 {
            return Err(AshViewportError::RendererUserDataOccupied);
        }
        i = i + 1;
    }
    let mut k: usize = 0;
    while k < states.len()
        invariant
            k <= states@.len(),
            forall|j: int| 0 <= j < states@.len() ==> #[trigger] states@[j].1 == 0,
            forall|j: int| 0 <= j < k ==> !(#[trigger] states@[j].0),
        decreases states@.len() - k,
    {
        if states[k].0 {
            return Err(AshViewportError::PlatformWindowsAlreadyCreated);
        }
        k = k + 1;
    }
    Ok(())
}

/// Rejects null physical-device and presentation-queue handles.
pub fn validate_vulkan_handles(physical_device: u64, present_queue: u64) -> (r: Result<
    (),
    AshViewportError,
>)
    ensures
        r == if physical_device == 0 {
            Err::<(), AshViewportError>(AshViewportError::NullPhysicalDevice)
        } else if present_queue == 0 {
            Err::<(), AshViewportError>(AshViewportError::NullPresentQueue)
        } else {
            Ok::<(), AshViewportError>(())
        },
{
    if physical_device == 0 {
        return Err(AshViewportError::NullPhysicalDevice);
    }
    if present_queue == 0 {
        return Err(AshViewportError::NullPresentQueue);
    }
    Ok(())
}

/// The queue-family properties that queue selection reads.
#[derive(Clone, Copy, Debug, PartialEq, Eq, Structural)]
pub struct QueueFamilyProperties {
    /// `VkQueueFlags`.
    pub queue_flags: u32,
    /// Number of queues in the family.
    pub queue_count: u32,
}

/// The outcome of checking the queue families `properties` against the configured graphics
/// and presentation family indices.
pub open spec fn queue_family_selection(
    properties: Seq<QueueFamilyProperties>,
    graphics_queue_family_index: u32,
    present_queue_family_index: u32,
) -> Result<(), AshViewportError> {
    if graphics_queue_family_index >= properties.len() {
        Err::<(), AshViewportError>(
            AshViewportError::GraphicsQueueFamilyOutOfRange {
                queue_family_index: graphics_queue_family_index,
                queue_family_count: properties.len() as usize,
            },
        )
    } else if present_queue_family_index >= properties.len() {
        Err::<(), AshViewportError>(
            AshViewportError::PresentQueueFamilyOutOfRange {
                queue_family_index: present_queue_family_index,
                queue_family_count: properties.len() as usize,
            },
        )
    } else if properties[graphics_queue_family_index as int].queue_count == 0 {
        Err::<(), AshViewportError>(
            AshViewportError::QueueFamilyEmpty { queue_family_index: graphics_queue_family_index },
        )
    } else if properties[present_queue_family_index as int].queue_count == 0 {
        Err::<(), AshViewportError>(
            AshViewportError::QueueFamilyEmpty { queue_family_index: present_queue_family_index },
        )
    } else if properties[graphics_queue_family_index as int].queue_flags & QUEUE_GRAPHICS_BIT
        != QUEUE_GRAPHICS_BIT {
        Err::<(), AshViewportError>(
            AshViewportError::GraphicsQueueFamilyUnsupported {
                queue_family_index: graphics_queue_family_index,
            },
        )
    } else {
        Ok::<(), AshViewportError>(())
    }
}

/// Checks the configured graphics and presentation queue families against the physical device.
pub fn validate_queue_family_selection(
    properties: &[QueueFamilyProperties],
    graphics_queue_family_index: u32,
    present_queue_family_index: u32,
) -> (r: Result<(), AshViewportError>)
    ensures
        r == queue_family_selection(
            properties@,
            graphics_queue_family_index,
            present_queue_family_index,
        ),
{
    let count = properties.len();
    if graphics_queue_family_index as usize >= count {
        return Err(
            AshViewportError::GraphicsQueueFamilyOutOfRange {
                queue_family_index: graphics_queue_family_index,
                queue_family_count: count,
            },
        );
    }
    if present_queue_family_index as usize >= count {
        return Err(
            AshViewportError::PresentQueueFamilyOutOfRange {
                queue_family_index: present_queue_family_index,
                queue_family_count: count,
            },
        );
    }
    let graphics = properties[graphics_queue_family_index as usize];
    let present = properties[present_queue_family_index as usize];
    if graphics.queue_count == 0 {
        return Err(
            AshViewportError::QueueFamilyEmpty { queue_family_index: graphics_queue_family_index },
        );
    }
    if present.queue_count == 0 {
        return Err(
            AshViewportError::QueueFamilyEmpty { queue_family_index: present_queue_family_index },
        );
    }
    if graphics.queue_flags & QUEUE_GRAPHICS_BIT != QUEUE_GRAPHICS_BIT {
        return Err(
            AshViewportError::GraphicsQueueFamilyUnsupported {
                queue_family_index: graphics_queue_family_index,
            },
        );
    }
    Ok(())
}

/// The present semaphore that belongs to swapchain image `image_index`, if it exists.
pub fn present_semaphore_for_image(semaphores: &[u64], image_index: u32) -> (r: Option<u64>)
    ensures
        r == if image_index < semaphores@.len() {
            Some(semaphores@[image_index as int])
        } else {
            None::<u64>
        },
{
    let index = image_index as usize;
    if index < semaphores.len() {
        Some(semaphores[index])
    } else {
        None
    }
}

/// Load operation of a secondary viewport's color attachment: discard when the viewport asks
/// the renderer not to clear, clear otherwise.
pub fn viewport_attachment_load_op(no_renderer_clear: bool) -> (r: i32)
    ensures
        r == if no_renderer_clear {
            ATTACHMENT_LOAD_OP_DONT_CARE
        } else {
            ATTACHMENT_LOAD_OP_CLEAR
        },
{
    if no_renderer_clear {
        ATTACHMENT_LOAD_OP_DONT_CARE
    } else {
        ATTACHMENT_LOAD_OP_CLEAR
    }
}

/// Whether `format` is one of the 8-bit sRGB swapchain formats.
pub fn is_srgb_format(format: i32) -> (r: bool)
    ensures
        r == (format == FORMAT_B8G8R8A8_SRGB || format == FORMAT_R8G8B8A8_SRGB || format
            == FORMAT_A8B8G8R8_SRGB_PACK32),
{
    format == FORMAT_B8G8R8A8_SRGB || format == FORMAT_R8G8B8A8_SRGB || format
        == FORMAT_A8B8G8R8_SRGB_PACK32
}

} // verus!

verus! {

/// The waiting faults after a terminal fault was raised: it is queued only if no terminal fault
/// was seen before.
pub open spec fn terminal_recorded(
    queued: Seq<AshViewportError>,
    terminal_seen: bool,
    fault: AshViewportError,
) -> Seq<AshViewportError> {
    if terminal_seen {
        queued
    } else {
        queued.push(fault)
    }
}

/// Faults raised while no Rust caller was on the stack, waiting to be reported in order.
///
/// At most one terminal fault is ever queued: the first one ends the runtime.
#[derive(Debug)]
pub struct RuntimeFaults {
    pending: Vec<AshViewportError>,
    terminal_recorded: bool,
}

impl RuntimeFaults {
    /// Faults waiting to be reported, oldest first.
    pub closed spec fn queued(&self) -> Seq<AshViewportError> {
        self.pending@
    }

    /// Whether a terminal fault was ever queued.
    pub closed spec fn terminal_seen(&self) -> bool {
        self.terminal_recorded
    }

    /// No fault queued.
    pub fn new() -> (r: Self)
        ensures
            r.queued().len() == 0,
            !r.terminal_seen(),
    {
        RuntimeFaults { pending: Vec::new(), terminal_recorded: false }
    }

    /// Queues a terminal fault unless one was queued before.
    pub fn record_terminal(&mut self, fault: AshViewportError)
        ensures
            final(self).terminal_seen(),
            final(self).queued() == terminal_recorded(
                old(self).queued(),
                old(self).terminal_seen(),
                fault,
            ),
    {
        if !self.terminal_recorded {
            self.pending.push(fault);
            self.terminal_recorded = true;
        }
    }

    /// Queues a fault that does not end the runtime.
    pub fn record_non_terminal(&mut self, fault: AshViewportError)
        ensures
            final(self).terminal_seen() == old(self).terminal_seen(),
            final(self).queued() == old(self).queued().push(fault),
    {
        self.pending.push(fault);
    }

    /// Whether a fault waits.
    pub fn has_pending(&self) -> (r: bool)
        ensures
            r == (self.queued().len() > 0),
    {
        self.pending.len() > 0
    }

    /// Takes the oldest waiting fault.
    pub fn take_next(&mut self) -> (r: Option<AshViewportError>)
        ensures
            final(self).terminal_seen() == old(self).terminal_seen(),
            old(self).queued().len() == 0 ==> r is None && final(self).queued() == old(self).queued(),
            old(self).queued().len() > 0 ==> {
                &&& r == Some(old(self).queued()[0])
                &&& final(self).queued() == old(self).queued().drop_first()
            },
    {
        if self.pending.len() == 0 {
            return None;
        }
        let fault = self.pending.remove(0);
        proof {
            assert(self.pending@ =~= old(self).pending@.drop_first());
        }
        Some(fault)
    }

    /// Takes every waiting fault, oldest first.
    pub fn drain(&mut self) -> (r: Vec<AshViewportError>)
        ensures
            r@ == old(self).queued(),
            final(self).queued().len() == 0,
            final(self).terminal_seen() == old(self).terminal_seen(),
    {
        let mut taken: Vec<AshViewportError> = Vec::new();
        std::mem::swap(&mut taken, &mut self.pending);
        taken
    }
}

/// Lifecycle of an attached multi-viewport runtime.
#[derive(Clone, Copy, Debug, PartialEq, Eq, Structural)]
pub enum RuntimeState {
    /// Being set up.
    Constructing,
    /// Serving callbacks.
    Attached,
    /// Shutting down after a request or a terminal fault.
    ShuttingDown,
    /// Detached from its Context.
    Detached,
    /// Its renderer resources are gone.
    ResourceDropped,
}

/// Ownership of the renderer callback table.
#[derive(Clone, Copy, Debug, PartialEq, Eq, Structural)]
pub enum CallbackState {
    /// Not claimed yet.
    Unclaimed,
    /// Claimed by this runtime.
    Claimed,
    /// Given back.
    Released,
}

/// The runtime's lifecycle and callback-table ownership.
#[derive(Clone, Copy, Debug, PartialEq, Eq, Structural)]
pub struct RuntimeLifecycle {
    /// Lifecycle state.
    pub state: RuntimeState,
    /// Callback-table ownership.
    pub callback_state: CallbackState,
}

impl RuntimeLifecycle {
    /// A runtime being set up, without callbacks.
    pub fn new() -> (r: Self)
        ensures
            r == (RuntimeLifecycle {
                state: RuntimeState::Constructing,
                callback_state: CallbackState::Unclaimed,
            }),
    {
        RuntimeLifecycle { state: RuntimeState::Constructing, callback_state: CallbackState::Unclaimed }
    }

    /// Callbacks may reach the runtime: attached, and the table not given back.
    pub fn is_callback_accessible(&self) -> (r: bool)
        ensures
            r == (self.state == RuntimeState::Attached && self.callback_state
                != CallbackState::Released),
    {
        self.state == RuntimeState::Attached && self.callback_state != CallbackState::Released
    }

    /// Cleanup callbacks may reach the runtime: attached or shutting down, with the table
    /// claimed.
    pub fn is_cleanup_callback_accessible(&self) -> (r: bool)
        ensures
            r == ((self.state == RuntimeState::Attached || self.state
                == RuntimeState::ShuttingDown) && self.callback_state == CallbackState::Claimed),
    {
        (self.state == RuntimeState::Attached || self.state == RuntimeState::ShuttingDown)
            && self.callback_state == CallbackState::Claimed
    }

    /// A callback may run: callbacks are accessible and no fault waits to be reported.
    pub fn can_enter_callback(&self, faults: &RuntimeFaults) -> (r: bool)
        ensures
            r == (self.state == RuntimeState::Attached && self.callback_state
                != CallbackState::Released && faults.queued().len() == 0),
    {
        self.is_callback_accessible() && !faults.has_pending()
    }

    /// The callback contract must be checked: attached with the table claimed.
    pub fn should_validate_runtime_contract(&self) -> (r: bool)
        ensures
            r == (self.state == RuntimeState::Attached && self.callback_state
                == CallbackState::Claimed),
    {
        self.state == RuntimeState::Attached && self.callback_state == CallbackState::Claimed
    }

    /// Starts shutting down from set-up or attached; later states stay.
    pub fn begin_shutdown(&mut self)
        ensures
            final(self).callback_state == old(self).callback_state,
            (old(self).state == RuntimeState::Constructing || old(self).state
                == RuntimeState::Attached) ==> final(self).state == RuntimeState::ShuttingDown,
            !(old(self).state == RuntimeState::Constructing || old(self).state
                == RuntimeState::Attached) ==> final(self).state == old(self).state,
    {
        if self.state == RuntimeState::Constructing || self.state == RuntimeState::Attached {
            self.state = RuntimeState::ShuttingDown;
        }
    }

    /// Marks the runtime detached unless it already is, or its resources are gone.
    pub fn mark_detached(&mut self)
        ensures
            final(self).callback_state == old(self).callback_state,
            (old(self).state == RuntimeState::Detached || old(self).state
                == RuntimeState::ResourceDropped) ==> final(self).state == old(self).state,
            !(old(self).state == RuntimeState::Detached || old(self).state
                == RuntimeState::ResourceDropped) ==> final(self).state == RuntimeState::Detached,
    {
        if !(self.state == RuntimeState::Detached || self.state == RuntimeState::ResourceDropped) {
            self.state = RuntimeState::Detached;
        }
    }

    /// The runtime claimed the callback table.
    pub fn mark_callback_claimed(&mut self)
        ensures
            *final(self) == (RuntimeLifecycle { callback_state: CallbackState::Claimed, ..*old(self) }),
    {
        self.callback_state = CallbackState::Claimed;
    }

    /// The runtime gave the callback table back.
    pub fn mark_callback_released(&mut self)
        ensures
            *final(self) == (RuntimeLifecycle { callback_state: CallbackState::Released, ..*old(self) }),
    {
        self.callback_state = CallbackState::Released;
    }

    /// Checked at each Rust entry: the oldest waiting fault is reported first; otherwise the
    /// runtime must be attached.
    pub fn ensure_entry(&self, faults: &mut RuntimeFaults) -> (r: Result<(), AshViewportError>)
        ensures
            final(faults).terminal_seen() == old(faults).terminal_seen(),
            old(faults).queued().len() > 0 ==> {
                &&& r == Err::<(), AshViewportError>(old(faults).queued()[0])
                &&& final(faults).queued() == old(faults).queued().drop_first()
            },
            old(faults).queued().len() == 0 ==> {
                &&& final(faults).queued() == old(faults).queued()
                &&& r == if self.state == RuntimeState::Attached {
                    Ok::<(), AshViewportError>(())
                } else {
                    Err::<(), AshViewportError>(AshViewportError::RuntimeDetached)
                }
            },
    {
        if let Some(fault) = faults.take_next() {
            return Err(fault);
        }
        if self.state == RuntimeState::Attached {
            Ok(())
        } else {
            Err(AshViewportError::RuntimeDetached)
        }
    }
}

} // verus!

verus! {

/// Checks the Vulkan handles, then the queue families that the physical device reports.
pub fn validate_vulkan_config(
    physical_device: u64,
    present_queue: u64,
    queue_families: &[QueueFamilyProperties],
    graphics_queue_family_index: u32,
    present_queue_family_index: u32,
) -> (r: Result<(), AshViewportError>)
    ensures
        r == if physical_device == 0 {
            Err::<(), AshViewportError>(AshViewportError::NullPhysicalDevice)
        } else if present_queue == 0 {
            Err::<(), AshViewportError>(AshViewportError::NullPresentQueue)
        } else {
            queue_family_selection(
                queue_families@,
                graphics_queue_family_index,
                present_queue_family_index,
            )
        },
{
    match validate_vulkan_handles(physical_device, present_queue) {
        Err(e) => Err(e),
        Ok(()) => validate_queue_family_selection(
            queue_families,
            graphics_queue_family_index,
            present_queue_family_index,
        ),
    }
}

/// What a render callback does before acquiring an image.
#[derive(Clone, Copy, Debug, PartialEq, Eq, Structural)]
pub enum AcquireGate {
    /// Acquire now.
    Proceed,
    /// Render nothing this frame.
    Skip,
    /// Rebuild the swapchain, then check again.
    RebuildFirst,
}

/// Acquire only an active viewport with a swapchain; a failed viewport renders nothing, any
/// other one is rebuilt first.
pub fn acquire_gate(state: ViewportRuntimeState, has_swapchain: bool) -> (r: AcquireGate)
    ensures
        r == if state == ViewportRuntimeState::Active && has_swapchain {
            AcquireGate::Proceed
        } else if state == ViewportRuntimeState::Failed {
            AcquireGate::Skip
        } else {
            AcquireGate::RebuildFirst
        },
{
    if state.can_acquire() && has_swapchain {
        AcquireGate::Proceed
    } else if state == ViewportRuntimeState::Failed {
        AcquireGate::Skip
    } else {
        AcquireGate::RebuildFirst
    }
}

/// Starts rebuilding a viewport's swapchain: a failed viewport is never rebuilt; otherwise a
/// pending present is dropped and the viewport waits for the rebuild.
pub fn begin_swapchain_rebuild(
    state: &mut ViewportRuntimeState,
    pending_present: &mut Option<u32>,
    rebuild_after_present: &mut bool,
) -> (r: Result<(), RendererError>)
    ensures
        *old(state) == ViewportRuntimeState::Failed ==> {
            &&& r == Err::<(), RendererError>(
                RendererError::InvalidRenderState("cannot rebuild a failed viewport runtime"),
            )
            &&& *final(state) == *old(state)
            &&& *final(pending_present) == *old(pending_present)
            &&& *final(rebuild_after_present) == *old(rebuild_after_present)
        },
        *old(state) != ViewportRuntimeState::Failed ==> {
            &&& r is Ok
            &&& *final(state) == ViewportRuntimeState::RebuildRequired
            &&& *final(pending_present) == None::<u32>
            &&& !*final(rebuild_after_present)
        },
{
    if let ViewportRuntimeState::Failed = *state {
        return Err(RendererError::InvalidRenderState("cannot rebuild a failed viewport runtime"));
    }
    *pending_present = None;
    *rebuild_after_present = false;
    *state = ViewportRuntimeState::RebuildRequired;
    Ok(())
}

/// Ends a successful rebuild: without a drawable extent the viewport pauses, with a new
/// swapchain it becomes active. A failed rebuild leaves it waiting for the next one.
pub fn finish_swapchain_rebuild(state: &mut ViewportRuntimeState, drawable: bool)
    ensures
        *final(state) == if drawable {
            ViewportRuntimeState::Active
        } else {
            ViewportRuntimeState::Paused
        },
{
    *state = if drawable {
        ViewportRuntimeState::Active
    } else {
        ViewportRuntimeState::Paused
    };
}

/// The next thing a secondary viewport's render callback does before it acquires an image.
#[derive(Clone, Copy, Debug, PartialEq, Eq, Structural)]
pub enum RenderEntryStep {
    /// Render nothing this frame.
    Skip,
    /// Recover the abandoned acquire of this frame slot first.
    Recover { frame_index: usize },
    /// Rebuild the swapchain first; `for_acquire` tells whether the viewport could not acquire
    /// (rather than asking for another extent).
    Rebuild { for_acquire: bool },
    /// Acquire an image.
    Acquire,
}

/// The next step of a render callback, taken again after each recovery or rebuild: a present
/// still pending skips the frame; an abandoned acquire is recovered; without frame slots
/// nothing renders; a changed extent request rebuilds a viewport that has not failed; a paused
/// viewport without a drawable extent skips; a viewport that cannot acquire is skipped when
/// failed and otherwise rebuilt once (`rebuilt_for_acquire`), after which it acquires only if
/// it became active.
pub open spec fn render_entry(
    pending_present: bool,
    state: ViewportRuntimeState,
    frame_count: usize,
    extent_changed: bool,
    has_desired_extent: bool,
    has_swapchain: bool,
    rebuilt_for_acquire: bool,
) -> RenderEntryStep {
    if pending_present {
        RenderEntryStep::Skip
    } else if state.recovery_frame_index_spec() is Some {
        RenderEntryStep::Recover { frame_index: state.recovery_frame_index_spec().unwrap() }
    } else if frame_count == 0 {
        RenderEntryStep::Skip
    } else if !rebuilt_for_acquire && state != ViewportRuntimeState::Failed && extent_changed {
        RenderEntryStep::Rebuild { for_acquire: false }
    } else if state == ViewportRuntimeState::Paused && !has_desired_extent {
        RenderEntryStep::Skip
    } else if rebuilt_for_acquire {
        if state == ViewportRuntimeState::Active {
            RenderEntryStep::Acquire
        } else {
            RenderEntryStep::Skip
        }
    } else if state == ViewportRuntimeState::Active && has_swapchain {
        RenderEntryStep::Acquire
    } else if state == ViewportRuntimeState::Failed {
        RenderEntryStep::Skip
    } else {
        RenderEntryStep::Rebuild { for_acquire: true }
    }
}

/// Decides the next step of a secondary viewport's render callback before it acquires.
pub fn render_entry_step(
    pending_present: bool,
    state: ViewportRuntimeState,
    frame_count: usize,
    extent_changed: bool,
    has_desired_extent: bool,
    has_swapchain: bool,
    rebuilt_for_acquire: bool,
) -> (r: RenderEntryStep)
    ensures
        r == render_entry(
            pending_present,
            state,
            frame_count,
            extent_changed,
            has_desired_extent,
            has_swapchain,
            rebuilt_for_acquire,
        ),
{
    if pending_present {
        return RenderEntryStep::Skip;
    }
    if let Some(frame_index) = state.recovery_frame_index() {
        return RenderEntryStep::Recover { frame_index };
    }
    if frame_count == 0 {
        return RenderEntryStep::Skip;
    }
    let failed = match state {
        ViewportRuntimeState::Failed => true,
        _ => false,
    };
    if !rebuilt_for_acquire && !failed && extent_changed {
        return RenderEntryStep::Rebuild { for_acquire: false };
    }
    let paused = match state {
        ViewportRuntimeState::Paused => true,
        _ => false,
    };
    if paused && !has_desired_extent {
        return RenderEntryStep::Skip;
    }
    if rebuilt_for_acquire {
        return if state.can_acquire() {
            RenderEntryStep::Acquire
        } else {
            RenderEntryStep::Skip
        };
    }
    match acquire_gate(state, has_swapchain) {
        AcquireGate::Proceed => RenderEntryStep::Acquire,
        AcquireGate::Skip => RenderEntryStep::Skip,
        AcquireGate::RebuildFirst => RenderEntryStep::Rebuild { for_acquire: true },
    }
}

/// What to do with the result of acquiring or presenting a swapchain image.
#[derive(Clone, Copy, Debug, PartialEq, Eq, Structural)]
pub enum SwapchainOutcome {
    /// Carry on; `rebuild` asks for a swapchain rebuild afterwards.
    Done { rebuild: bool },
    /// The swapchain no longer matches the surface: rebuild it.
    Rebuild,
    /// The viewport fails with this Vulkan result.
    Fail(i32),
}

/// Classifies a presentation result: out-of-date and suboptimal errors rebuild, other errors
/// fail the viewport, success rebuilds afterwards when suboptimal or when an earlier acquire
/// asked for it.
pub fn classify_present(result: Result<bool, i32>, rebuild_after_present: bool) -> (r: SwapchainOutcome)
    ensures
        r == match result {
            Ok(suboptimal) => SwapchainOutcome::Done { rebuild: suboptimal || rebuild_after_present },
            Err(code) => if code == RESULT_ERROR_OUT_OF_DATE_KHR || code == RESULT_SUBOPTIMAL_KHR {
                SwapchainOutcome::Rebuild
            } else {
                SwapchainOutcome::Fail(code)
            },
        },
{
    match result {
        Ok(suboptimal) => SwapchainOutcome::Done { rebuild: suboptimal || rebuild_after_present },
        Err(code) => if code == RESULT_ERROR_OUT_OF_DATE_KHR || code == RESULT_SUBOPTIMAL_KHR {
            SwapchainOutcome::Rebuild
        } else {
            SwapchainOutcome::Fail(code)
        },
    }
}

/// Classifies an acquire result: out-of-date and suboptimal errors rebuild, other errors fail
/// the viewport, an image acquired suboptimally asks for a rebuild after presenting.
pub fn classify_acquire(result: Result<(u32, bool), i32>) -> (r: Result<(u32, bool), SwapchainOutcome>)
    ensures
        r == match result {
            Ok(acquired) => Ok::<(u32, bool), SwapchainOutcome>(acquired),
            Err(code) => if code == RESULT_ERROR_OUT_OF_DATE_KHR || code == RESULT_SUBOPTIMAL_KHR {
                Err::<(u32, bool), SwapchainOutcome>(SwapchainOutcome::Rebuild)
            } else {
                Err::<(u32, bool), SwapchainOutcome>(SwapchainOutcome::Fail(code))
            },
        },
{
    match result {
        Ok(acquired) => Ok(acquired),
        Err(code) => if code == RESULT_ERROR_OUT_OF_DATE_KHR || code == RESULT_SUBOPTIMAL_KHR {
            Err(SwapchainOutcome::Rebuild)
        } else {
            Err(SwapchainOutcome::Fail(code))
        },
    }
}

/// What a swap-buffers callback presents.
#[derive(Clone, Copy, Debug, PartialEq, Eq, Structural)]
pub enum PresentPlan {
    /// No image waits to be presented.
    Nothing,
    /// Present image `image_index`, waiting on `semaphore`.
    Present { image_index: u32, semaphore: u64 },
}

/// Takes the image waiting to be presented. An inactive viewport, a missing swapchain, or an
/// image without a present semaphore fails the viewport, leaving the image pending.
pub fn plan_present(
    state: &mut ViewportRuntimeState,
    pending_present: &mut Option<u32>,
    has_swapchain: bool,
    present_semaphores: &[u64],
) -> (r: Result<PresentPlan, AshViewportError>)
    ensures
        match *old(pending_present) {
            None => r == Ok::<PresentPlan, AshViewportError>(PresentPlan::Nothing) && *final(state)
                == *old(state) && *final(pending_present) == *old(pending_present),
            Some(image_index) => if *old(state) != ViewportRuntimeState::Active {
                &&& r == Err::<PresentPlan, AshViewportError>(
                    AshViewportError::InvalidCallbackArgument {
                        callback: "Renderer_SwapBuffers runtime state",
                    },
                )
                &&& *final(state) == ViewportRuntimeState::Failed
                &&& *final(pending_present) == *old(pending_present)
            } else if !has_swapchain {
                &&& r == Err::<PresentPlan, AshViewportError>(
                    AshViewportError::InvalidCallbackArgument {
                        callback: "Renderer_SwapBuffers swapchain",
                    },
                )
                &&& *final(state) == ViewportRuntimeState::Failed
                &&& *final(pending_present) == *old(pending_present)
            } else if image_index >= present_semaphores@.len() {
                &&& r == Err::<PresentPlan, AshViewportError>(
                    AshViewportError::InvalidCallbackArgument {
                        callback: "Renderer_SwapBuffers image index",
                    },
                )
                &&& *final(state) == ViewportRuntimeState::Failed
                &&& *final(pending_present) == *old(pending_present)
            } else {
                &&& r == Ok::<PresentPlan, AshViewportError>(
                    PresentPlan::Present {
                        image_index,
                        semaphore: present_semaphores@[image_index as int],
                    },
                )
                &&& *final(state) == *old(state)
                &&& *final(pending_present) == None::<u32>
            },
        },
{
    let image_index = match *pending_present {
        None => return Ok(PresentPlan::Nothing),
        Some(i) => i,
    };
    if !state.can_acquire() {
        *state = ViewportRuntimeState::Failed;
        return Err(
            AshViewportError::InvalidCallbackArgument { callback: "Renderer_SwapBuffers runtime state" },
        );
    }
    if !has_swapchain {
        *state = ViewportRuntimeState::Failed;
        return Err(
            AshViewportError::InvalidCallbackArgument { callback: "Renderer_SwapBuffers swapchain" },
        );
    }
    let semaphore = match present_semaphore_for_image(present_semaphores, image_index) {
        Some(s) => s,
        None => {
            *state = ViewportRuntimeState::Failed;
            return Err(
                AshViewportError::InvalidCallbackArgument {
                    callback: "Renderer_SwapBuffers image index",
                },
            );
        },
    };
    *pending_present = None;
    Ok(PresentPlan::Present { image_index, semaphore })
}

/// Gives up on a viewport: no image waits to be presented, no rebuild is asked for after
/// presenting, and the viewport renders nothing from now on.
pub fn mark_viewport_failed(
    state: &mut ViewportRuntimeState,
    pending_present: &mut Option<u32>,
    rebuild_after_present: &mut bool,
)
    ensures
        *final(state) == ViewportRuntimeState::Failed,
        *final(pending_present) == None::<u32>,
        !*final(rebuild_after_present),
{
    *pending_present = None;
    *rebuild_after_present = false;
    *state = ViewportRuntimeState::Failed;
}

/// The frame slot that a render callback uses: the rotating frame counter modulo the number of
/// frame slots.
pub fn frame_slot(frame_counter: usize, frame_count: usize) -> (r: usize)
    requires
        frame_count > 0,
    ensures
        r == frame_counter % frame_count,
        r < frame_count,
{
    frame_counter % frame_count
}

/// What a render callback does about the fence of the last submission that used the image it
/// just acquired.
#[derive(Clone, Copy, Debug, PartialEq, Eq, Structural)]
pub enum ImageFenceStep {
    /// The swapchain has no fence entry for the image: the acquire must be recovered.
    Missing,
    /// No submission uses the image.
    Free,
    /// Wait for this fence before reusing the image.
    Wait(u64),
}

/// Looks up the fence guarding image `image_index`; a null fence means no submission uses it.
pub fn image_fence_step(images_in_flight: &[u64], image_index: u32) -> (r: ImageFenceStep)
    ensures
        r == if image_index >= images_in_flight@.len() {
            ImageFenceStep::Missing
        } else if images_in_flight@[image_index as int] == 0 {
            ImageFenceStep::Free
        } else {
            ImageFenceStep::Wait(images_in_flight@[image_index as int])
        },
{
    let index = image_index as usize;
    if index >= images_in_flight.len() {
        ImageFenceStep::Missing
    } else if images_in_flight[index] == 0 {
        ImageFenceStep::Free
    } else {
        ImageFenceStep::Wait(images_in_flight[index])
    }
}

/// Publishes a frame submitted on slot `frame_slot` for image `image_index`.
///
/// Without a swapchain the viewport fails. Otherwise the image is guarded by the frame's fence,
/// the frame counter moves to the next slot, and the image waits to be presented; then the
/// acquire transaction of the slot closes, and if it was not the open one the viewport fails.
pub fn publish_submission(
    state: &mut ViewportRuntimeState,
    frame_counter: &mut usize,
    pending_present: &mut Option<u32>,
    rebuild_after_present: &mut bool,
    images_in_flight: &mut Vec<u64>,
    has_swapchain: bool,
    frame_count: usize,
    frame_slot: usize,
    image_index: u32,
    frame_fence: u64,
) -> (r: Result<(), AshViewportError>)
    requires
        frame_count > 0,
        *old(frame_counter) < usize::MAX,
        has_swapchain ==> image_index < old(images_in_flight)@.len(),
    ensures
        !has_swapchain ==> {
            &&& r == Err::<(), AshViewportError>(
                AshViewportError::InvalidCallbackArgument { callback: "publish viewport submission" },
            )
            &&& *final(state) == ViewportRuntimeState::Failed
            &&& *final(pending_present) == None::<u32>
            &&& !*final(rebuild_after_present)
            &&& *final(frame_counter) == *old(frame_counter)
            &&& final(images_in_flight)@ == old(images_in_flight)@
        },
        has_swapchain ==> {
            &&& final(images_in_flight)@ == old(images_in_flight)@.update(
                image_index as int,
                frame_fence,
            )
            &&& *final(frame_counter) == (*old(frame_counter) + 1) % (frame_count as int)
            &&& if acquire_finished(*old(state), frame_slot) is Some {
                &&& r is Ok
                &&& *final(state) == ViewportRuntimeState::Active
                &&& *final(pending_present) == Some(image_index)
                &&& *final(rebuild_after_present) == *old(rebuild_after_present)
            } else {
                &&& r == Err::<(), AshViewportError>(
                    AshViewportError::InvalidCallbackArgument {
                        callback: "finish viewport acquire transaction",
                    },
                )
                &&& *final(state) == ViewportRuntimeState::Failed
                &&& *final(pending_present) == None::<u32>
                &&& !*final(rebuild_after_present)
            }
        },
{
    if !has_swapchain {
        mark_viewport_failed(state, pending_present, rebuild_after_present);
        return Err(
            AshViewportError::InvalidCallbackArgument { callback: "publish viewport submission" },
        );
    }
    images_in_flight.set(image_index as usize, frame_fence);
    *frame_counter = (*frame_counter + 1) % frame_count;
    *pending_present = Some(image_index);
    if !state.finish_acquire(frame_slot) {
        mark_viewport_failed(state, pending_present, rebuild_after_present);
        return Err(
            AshViewportError::InvalidCallbackArgument {
                callback: "finish viewport acquire transaction",
            },
        );
    }
    Ok(())
}

/// Frames rotate through the slots: starting from a counter below the slot count, the next
/// `frame_count - 1` submissions each use a slot other than the current one, so a slot is reused
/// only after every other slot was used once.
pub proof fn law_frame_slots_rotate(counter: int, frame_count: int, later: int)
    requires
        0 <= counter < frame_count,
        0 < later < frame_count,
    ensures
        0 <= (counter + later) % frame_count < frame_count,
        (counter + later) % frame_count != counter,
{
    if counter + later < frame_count {
        vstd::arithmetic::div_mod::lemma_small_mod((counter + later) as nat, frame_count as nat);
    } else {
        vstd::arithmetic::div_mod::lemma_mod_sub_multiples_vanish(counter + later, frame_count);
        vstd::arithmetic::div_mod::lemma_small_mod((counter + later - frame_count) as nat, frame_count as nat);
    }
}

/// A renderer teardown result as the runtime reports it: device loss names `operation`.
pub open spec fn renderer_shutdown_result(result: Result<(), RendererError>, operation: &'static str) -> Result<
    (),
    AshViewportError,
> {
    match result {
        Ok(_) => Ok(()),
        Err(e) => if e == RendererError::Vulkan(RESULT_ERROR_DEVICE_LOST) {
            Err(AshViewportError::DeviceLost { operation })
        } else {
            Err(AshViewportError::Renderer(e))
        },
    }
}

/// Maps a renderer teardown result into the runtime's error; device loss becomes
/// [`AshViewportError::DeviceLost`] for `operation`.
pub fn map_renderer_shutdown_result(result: Result<(), RendererError>, operation: &'static str) -> (r:
    Result<(), AshViewportError>)
    ensures
        r == renderer_shutdown_result(result, operation),
{
    match result {
        Ok(()) => Ok(()),
        Err(RendererError::Vulkan(code)) => {
            if code == RESULT_ERROR_DEVICE_LOST {
                Err(AshViewportError::DeviceLost { operation })
            } else {
                Err(AshViewportError::Renderer(RendererError::Vulkan(code)))
            }
        },
        Err(e) => Err(AshViewportError::Renderer(e)),
    }
}

/// The first of two step results that failed.
pub fn first_error(first: Result<(), AshViewportError>, second: Result<(), AshViewportError>) -> (r:
    Result<(), AshViewportError>)
    ensures
        r == if first is Err {
            first
        } else {
            second
        },
{
    match first {
        Err(e) => Err(e),
        Ok(()) => second,
    }
}

/// How a runtime shutdown was asked for.
#[derive(Clone, Copy, Debug, PartialEq, Eq, Structural)]
pub enum ShutdownAction {
    /// The Context quiesces its attachments: stop serving callbacks.
    Quiesce,
    /// The owner shuts the runtime down with the Context at hand.
    Explicit,
    /// The Context tears down its renderer resources.
    ContextTeardown,
}

/// What a shutdown request does.
#[derive(Clone, Copy, Debug, PartialEq, Eq, Structural)]
pub enum ShutdownStep {
    /// The resources are already gone; detach from the Context unless it is tearing down.
    AlreadyReleased { detach: bool },
    /// Run the shutdown that `action` names.
    Run(ShutdownAction),
}

/// What a shutdown request does in runtime state `state`.
pub open spec fn shutdown_step(state: RuntimeState, action: ShutdownAction) -> ShutdownStep {
    if state == RuntimeState::ResourceDropped {
        ShutdownStep::AlreadyReleased { detach: action != ShutdownAction::ContextTeardown }
    } else {
        ShutdownStep::Run(action)
    }
}

/// Shutdown runs at most once: after the resources were released a request only detaches.
pub fn plan_shutdown(state: RuntimeState, action: ShutdownAction) -> (r: ShutdownStep)
    ensures
        r == shutdown_step(state, action),
{
    if state == RuntimeState::ResourceDropped {
        let detach = match action {
            ShutdownAction::ContextTeardown => false,
            _ => true,
        };
        ShutdownStep::AlreadyReleased { detach }
    } else {
        ShutdownStep::Run(action)
    }
}

/// Where the native state of a Context is in its life.
#[derive(Clone, Copy, Debug, PartialEq, Eq, Structural)]
pub enum ContextLifecycle {
    /// Alive and usable.
    Alive,
    /// Tearing down its attachments.
    Dropping,
    /// Its native state is gone.
    NativeDestroyed,
}

/// What dropping the runtime's owner does.
#[derive(Clone, Copy, Debug, PartialEq, Eq, Structural)]
pub enum OwnerDropAction {
    /// Nothing: the resources are gone, or the Context's teardown releases them.
    Nothing,
    /// Leave the attachment to the live Context, which alone can reset its texture bindings.
    DeferToContext,
    /// The Context is gone: retry the cleanup that its teardown could not finish.
    RetryCleanup,
}

/// Decides what dropping the runtime's owner does.
pub fn owner_drop_action(state: RuntimeState, context: ContextLifecycle) -> (r: OwnerDropAction)
    ensures
        r == if state == RuntimeState::ResourceDropped {
            OwnerDropAction::Nothing
        } else {
            match context {
                ContextLifecycle::Alive => OwnerDropAction::DeferToContext,
                ContextLifecycle::Dropping => OwnerDropAction::Nothing,
                ContextLifecycle::NativeDestroyed => OwnerDropAction::RetryCleanup,
            }
        },
{
    if state == RuntimeState::ResourceDropped {
        return OwnerDropAction::Nothing;
    }
    match context {
        ContextLifecycle::Alive => OwnerDropAction::DeferToContext,
        ContextLifecycle::Dropping => OwnerDropAction::Nothing,
        ContextLifecycle::NativeDestroyed => OwnerDropAction::RetryCleanup,
    }
}

/// One fault of a viewport route: from the renderer runtime or from the platform backend.
#[derive(Debug, PartialEq, Eq)]
pub enum AshViewportRouteFault<E> {
    /// Raised by the renderer runtime.
    Renderer(AshViewportError),
    /// Raised by the platform backend.
    Platform(E),
}

/// Every fault of a route preparation, in the order they are reported: the renderer's own
/// failure, then the runtime's queued faults, then the platform's.
pub open spec fn route_faults<P, E>(
    renderer_result: Option<Result<P, AshViewportError>>,
    runtime_faults: Seq<AshViewportError>,
    platform_faults: Seq<E>,
) -> Seq<AshViewportRouteFault<E>> {
    let first = match renderer_result {
        Some(Err(e)) => seq![AshViewportRouteFault::<E>::Renderer(e)],
        _ => Seq::<AshViewportRouteFault<E>>::empty(),
    };
    first + runtime_faults.map_values(|e: AshViewportError| AshViewportRouteFault::<E>::Renderer(e))
        + platform_faults.map_values(|e: E| AshViewportRouteFault::<E>::Platform(e))
}

/// Finishes preparing a route frame: any fault fails the preparation with every fault in order;
/// otherwise the prepared frame is returned, and without one the runtime is detached.
pub fn finish_route_preparation<P, E>(
    renderer_result: Option<Result<P, AshViewportError>>,
    runtime_faults: Vec<AshViewportError>,
    platform_faults: Vec<E>,
) -> (r: Result<P, Vec<AshViewportRouteFault<E>>>)
    ensures
        ({
            let faults = route_faults(renderer_result, runtime_faults@, platform_faults@);
            if faults.len() > 0 {
                r matches Err(v) && v@ == faults
            } else {
                match renderer_result {
                    Some(Ok(p)) => r == Ok::<P, Vec<AshViewportRouteFault<E>>>(p),
                    _ => r matches Err(v) && v@ == seq![
                        AshViewportRouteFault::<E>::Renderer(AshViewportError::RuntimeDetached),
                    ],
                }
            }
        }),
{
    let ghost expected = route_faults(renderer_result, runtime_faults@, platform_faults@);
    let ghost runtime_seq = runtime_faults@;
    let ghost platform_seq = platform_faults@;
    let mut faults: Vec<AshViewportRouteFault<E>> = Vec::new();
    let prepared = match renderer_result {
        Some(Ok(p)) => Some(p),
        Some(Err(e)) => {
            faults.push(AshViewportRouteFault::Renderer(e));
            None
        },
        None => None,
    };
    let ghost head = faults@;
    let mut runtime_faults = runtime_faults;
    let runtime_total = runtime_faults.len();
    let mut i: usize = 0;
    while runtime_faults.len() > 0
        invariant
            runtime_faults@ == runtime_seq.subrange(i as int, runtime_seq.len() as int),
            i <= runtime_seq.len(),
            runtime_seq.len() == runtime_total,
            faults@ == head + runtime_seq.take(i as int).map_values(
                |e: AshViewportError| AshViewportRouteFault::<E>::Renderer(e),
            ),
        decreases runtime_faults.len(),
    {
        let e = runtime_faults.remove(0);
        faults.push(AshViewportRouteFault::Renderer(e));
        proof {
            assert(runtime_seq.take(i + 1) =~= runtime_seq.take(i as int).push(e));
            assert(faults@ =~= head + runtime_seq.take(i + 1).map_values(
                |e: AshViewportError| AshViewportRouteFault::<E>::Renderer(e),
            ));
        }
        i = i + 1;
    }
    proof {
        assert(runtime_seq.take(i as int) =~= runtime_seq);
    }
    let ghost middle = faults@;
    let mut platform_faults = platform_faults;
    let platform_total = platform_faults.len();
    let mut k: usize = 0;
    while platform_faults.len() > 0
        invariant
            platform_faults@ == platform_seq.subrange(k as int, platform_seq.len() as int),
            k <= platform_seq.len(),
            platform_seq.len() == platform_total,
            faults@ == middle + platform_seq.take(k as int).map_values(
                |e: E| AshViewportRouteFault::<E>::Platform(e),
            ),
        decreases platform_faults.len(),
    {
        let e = platform_faults.remove(0);
        faults.push(AshViewportRouteFault::Platform(e));
        proof {
            assert(platform_seq.take(k + 1) =~= platform_seq.take(k as int).push(e));
            assert(faults@ =~= middle + platform_seq.take(k + 1).map_values(
                |e: E| AshViewportRouteFault::<E>::Platform(e),
            ));
        }
        k = k + 1;
    }
    proof {
        assert(platform_seq.take(k as int) =~= platform_seq);
        assert(faults@ =~= expected);
    }
    if faults.len() > 0 {
        return Err(faults);
    }
    match prepared {
        Some(p) => Ok(p),
        None => {
            let mut detached: Vec<AshViewportRouteFault<E>> = Vec::new();
            detached.push(AshViewportRouteFault::Renderer(AshViewportError::RuntimeDetached));
            Err(detached)
        },
    }
}

/// A frame rendered by Context `actual` may only enter the runtime of Context `expected`.
pub fn ensure_matching_frame_context(expected: u64, actual: u64) -> (r: Result<(), AshViewportError>)
    ensures
        r == if expected == actual {
            Ok::<(), AshViewportError>(())
        } else {
            Err::<(), AshViewportError>(AshViewportError::ContextMismatch { expected, actual })
        },
{
    if expected == actual {
        Ok(())
    } else {
        Err(AshViewportError::ContextMismatch { expected, actual })
    }
}

/// A prepared frame or completion of Context `actual` may only return to the runtime instance
/// that produced it (`same_runtime`), here the runtime of Context `expected`.
pub fn ensure_frame_runtime(same_runtime: bool, expected: u64, actual: u64) -> (r: Result<
    (),
    AshViewportError,
>)
    ensures
        r == if same_runtime {
            Ok::<(), AshViewportError>(())
        } else {
            Err::<(), AshViewportError>(
                AshViewportError::FrameTransactionRuntimeMismatch { expected, actual },
            )
        },
{
    if same_runtime {
        Ok(())
    } else {
        Err(AshViewportError::FrameTransactionRuntimeMismatch { expected, actual })
    }
}

/// Prepares a route frame of Context `actual` for the runtime of Context `expected`. A foreign
/// frame is refused before anything else happens: `platform_scope`, which enters the platform
/// backend and the renderer, does not run and the queued runtime faults stay queued. Otherwise
/// the scope runs and [`finish_route_preparation`] decides with the runtime's faults.
pub fn prepare_route_for_context<P, E, F>(
    expected: u64,
    actual: u64,
    faults: &mut RuntimeFaults,
    platform_scope: F,
) -> (r: Result<P, Vec<AshViewportRouteFault<E>>>)
    where
        F: FnOnce() -> (Option<Result<P, AshViewportError>>, Vec<E>),
    requires
        platform_scope.requires(()),
    ensures
        expected != actual ==> {
            &&& r matches Err(v) && v@ == seq![
                AshViewportRouteFault::<E>::Renderer(AshViewportError::ContextMismatch { expected, actual }),
            ]
            &&& final(faults).queued() == old(faults).queued()
            &&& final(faults).terminal_seen() == old(faults).terminal_seen()
        },
        expected == actual ==> {
            &&& final(faults).queued().len() == 0
            &&& final(faults).terminal_seen() == old(faults).terminal_seen()
            &&& exists|out: (Option<Result<P, AshViewportError>>, Vec<E>)| {
                &&& #[trigger] platform_scope.ensures((), out)
                &&& {
                    let all = route_faults(out.0, old(faults).queued(), out.1@);
                    if all.len() > 0 {
                        r matches Err(v) && v@ == all
                    } else {
                        match out.0 {
                            Some(Ok(p)) => r == Ok::<P, Vec<AshViewportRouteFault<E>>>(p),
                            _ => r matches Err(v) && v@ == seq![
                                AshViewportRouteFault::<E>::Renderer(AshViewportError::RuntimeDetached),
                            ],
                        }
                    }
                }
            }
        },
{
    if expected != actual {
        let mut refused: Vec<AshViewportRouteFault<E>> = Vec::new();
        refused.push(AshViewportRouteFault::Renderer(AshViewportError::ContextMismatch { expected, actual }));
        return Err(refused);
    }
    let out = platform_scope();
    let ghost out_copy = out;
    let (renderer_result, platform_faults) = out;
    let runtime_faults = faults.drain();
    let r = finish_route_preparation(renderer_result, runtime_faults, platform_faults);
    proof {
        assert(platform_scope.ensures((), out_copy));
    }
    r
}

impl RuntimeLifecycle {
    /// Settles the renderer release of a teardown whose renderer shutdown returned `result`:
    /// once the renderer is `destroyed` the runtime's resources are gone and device loss is
    /// reported for `operation`; otherwise everything stays for a retry and the renderer's error
    /// is reported as is.
    pub fn settle_renderer_release(
        &mut self,
        destroyed: bool,
        result: Result<(), RendererError>,
        operation: &'static str,
    ) -> (r: Result<(), AshViewportError>)
        ensures
            destroyed ==> {
                &&& *final(self) == (RuntimeLifecycle { state: RuntimeState::ResourceDropped, ..*old(self) })
                &&& r == renderer_shutdown_result(result, operation)
            },
            !destroyed ==> {
                &&& *final(self) == *old(self)
                &&& r == match result {
                    Ok(_) => Ok::<(), AshViewportError>(()),
                    Err(e) => Err::<(), AshViewportError>(AshViewportError::Renderer(e)),
                }
            },
    {
        if !destroyed {
            return match result {
                Ok(()) => Ok(()),
                Err(e) => Err(AshViewportError::Renderer(e)),
            };
        }
        self.state = RuntimeState::ResourceDropped;
        map_renderer_shutdown_result(result, operation)
    }
}

/// Shutdown is idempotent: once a teardown released the renderer (the renderer reported itself
/// destroyed), the runtime's resources are gone and every later shutdown request, whatever its
/// kind, runs nothing again; a teardown that could not release the renderer leaves the runtime
/// to shut down on the next request.
pub proof fn law_shutdown_is_idempotent(
    l: RuntimeLifecycle,
    destroyed: bool,
    action: ShutdownAction,
)
    requires
        l.state != RuntimeState::ResourceDropped,
    ensures
        destroyed ==> shutdown_step(
            (RuntimeLifecycle { state: RuntimeState::ResourceDropped, ..l }).state,
            action,
        ) is AlreadyReleased,
        !destroyed ==> shutdown_step(l.state, action) == ShutdownStep::Run(action),
{
}

} // verus!

verus! {

/// Only the first terminal fault is ever reported: once one was queued, later terminal faults
/// leave the queue as it is.
pub proof fn law_single_terminal_fault(
    queued: Seq<AshViewportError>,
    terminal_seen: bool,
    first: AshViewportError,
    later: AshViewportError,
)
    ensures
        terminal_recorded(terminal_recorded(queued, terminal_seen, first), true, later)
            == terminal_recorded(queued, terminal_seen, first),
        !terminal_seen ==> terminal_recorded(queued, terminal_seen, first).last() == first,
{
}

/// An acquired frame is a transaction: while it is open the viewport cannot acquire again and
/// names the frame slot to recover, and only the same slot can close it, returning the viewport
/// to active.
pub proof fn law_acquire_transaction(frame_index: usize, other: usize, again: usize)
    requires
        other != frame_index,
    ensures
        ({
            let open = acquire_begun(ViewportRuntimeState::Active, frame_index)->0;
            &&& acquire_begun(ViewportRuntimeState::Active, frame_index) is Some
            &&& acquire_begun(open, again) is None
            &&& open.recovery_frame_index_spec() == Some(frame_index)
            &&& acquire_finished(open, other) is None
            &&& acquire_finished(open, frame_index) == Some(ViewportRuntimeState::Active)
        }),
{
}

} // verus!
