use std::cell::Cell;

use dear_imgui_ash::context_state::{RendererWindowSlots, RENDERER_HAS_VIEWPORTS};
use dear_imgui_ash::error::RendererError;
use dear_imgui_ash::viewport_contract::record_entry_fault;
use dear_imgui_ash::swapchain::{
    extent_request_changed, pick_present_mode, pick_surface_format, resolve_present_mode, resolve_surface_format,
    validate_swapchain_image_usage, Extent2D, PresentModePolicy, SurfaceFormat,
    SurfaceFormatPolicy, SurfaceSupportError, ViewportSwapchainPolicy,
};
use dear_imgui_ash::viewport_runtime::{
    acquire_gate, advance_acquired_frame_recovery, begin_swapchain_rebuild, finish_swapchain_rebuild, classify_acquire, classify_device_idle,
    classify_present, entry_fault_is_terminal, is_srgb_format, plan_present,
    present_semaphore_for_image, recover_acquired_step, render_entry_step, RenderEntryStep,
    validate_queue_family_selection,
    validate_secondary_viewports, validate_vulkan_config, validate_vulkan_handles,
    viewport_attachment_load_op, AcquireGate, AshViewportError, CallbackState, DeviceIdleOutcome,
    PresentPlan, QueueFamilyProperties, RuntimeFaults, RuntimeLifecycle, RuntimeState,
    SwapchainOutcome, ViewportRuntimeState,
};
use dear_imgui_ash::vulkan_values::{
    ATTACHMENT_LOAD_OP_CLEAR, ATTACHMENT_LOAD_OP_DONT_CARE, COLOR_SPACE_HDR10_ST2084,
    COLOR_SPACE_SRGB_NONLINEAR, FORMAT_A2B10G10R10_UNORM_PACK32, FORMAT_B8G8R8A8_SRGB,
    FORMAT_B8G8R8A8_UNORM, FORMAT_R8G8B8A8_SRGB, FORMAT_R8G8B8A8_UNORM, FORMAT_UNDEFINED, IMAGE_USAGE_COLOR_ATTACHMENT_BIT,
    IMAGE_USAGE_STORAGE_BIT, IMAGE_USAGE_TRANSFER_SRC_BIT, PRESENT_MODE_FIFO,
    PRESENT_MODE_FIFO_RELAXED, PRESENT_MODE_IMMEDIATE, PRESENT_MODE_MAILBOX, QUEUE_GRAPHICS_BIT,
    RESULT_ERROR_DEVICE_LOST, RESULT_ERROR_OUT_OF_DATE_KHR, RESULT_ERROR_OUT_OF_HOST_MEMORY,
    RESULT_SUBOPTIMAL_KHR,
};

const QUEUE_COMPUTE_BIT: u32 = 2;

#[test]
fn only_active_viewport_state_can_acquire() {
    assert!(ViewportRuntimeState::Active.can_acquire());
    assert!(!ViewportRuntimeState::Paused.can_acquire());
    assert!(!ViewportRuntimeState::RebuildRequired.can_acquire());
    assert!(!ViewportRuntimeState::AcquireRecoveryRequired { frame_index: 0 }.can_acquire());
    assert!(!ViewportRuntimeState::Failed.can_acquire());
}

#[test]
fn foreign_renderer_user_data_preflight_is_transactional() {
    assert!(matches!(
        validate_secondary_viewports(&[(false, 0), (false, 0x1234)]),
        Err(AshViewportError::RendererUserDataOccupied)
    ));
}

#[test]
fn existing_platform_windows_preflight_is_transactional() {
    assert!(matches!(
        validate_secondary_viewports(&[(false, 0), (true, 0)]),
        Err(AshViewportError::PlatformWindowsAlreadyCreated)
    ));
    assert_eq!(validate_secondary_viewports(&[(false, 0), (false, 0)]), Ok(()));
}

#[test]
fn occupied_user_data_is_reported_before_created_windows() {
    assert_eq!(
        validate_secondary_viewports(&[(true, 0), (false, 7)]),
        Err(AshViewportError::RendererUserDataOccupied)
    );
}

#[test]
fn invalid_vulkan_handles_and_queue_families_are_rejected() {
    assert!(matches!(
        validate_vulkan_handles(0, 2),
        Err(AshViewportError::NullPhysicalDevice)
    ));
    assert!(matches!(
        validate_vulkan_handles(1, 0),
        Err(AshViewportError::NullPresentQueue)
    ));

    let queue_families = [QueueFamilyProperties { queue_flags: QUEUE_COMPUTE_BIT, queue_count: 1 }];
    assert!(matches!(
        validate_queue_family_selection(&queue_families, 0, 0),
        Err(AshViewportError::GraphicsQueueFamilyUnsupported { queue_family_index: 0 })
    ));
    assert!(matches!(
        validate_queue_family_selection(&queue_families, 1, 0),
        Err(AshViewportError::GraphicsQueueFamilyOutOfRange {
            queue_family_index: 1,
            queue_family_count: 1
        })
    ));
}

#[test]
fn queue_family_selection_checks_presentation_and_emptiness() {
    let families = [
        QueueFamilyProperties { queue_flags: QUEUE_GRAPHICS_BIT, queue_count: 1 },
        QueueFamilyProperties { queue_flags: QUEUE_GRAPHICS_BIT, queue_count: 0 },
    ];
    assert_eq!(validate_queue_family_selection(&families, 0, 0), Ok(()));
    assert_eq!(
        validate_queue_family_selection(&families, 0, 2),
        Err(AshViewportError::PresentQueueFamilyOutOfRange {
            queue_family_index: 2,
            queue_family_count: 2
        })
    );
    assert_eq!(
        validate_queue_family_selection(&families, 0, 1),
        Err(AshViewportError::QueueFamilyEmpty { queue_family_index: 1 })
    );
    assert_eq!(validate_vulkan_config(1, 2, &families, 0, 0), Ok(()));
    assert_eq!(
        validate_vulkan_config(0, 2, &families, 5, 5),
        Err(AshViewportError::NullPhysicalDevice)
    );
    assert_eq!(
        validate_vulkan_config(1, 2, &families, 5, 0),
        Err(AshViewportError::GraphicsQueueFamilyOutOfRange {
            queue_family_index: 5,
            queue_family_count: 2
        })
    );
}

#[test]
fn swapchain_image_usage_always_requires_color_attachment_and_validates_extras() {
    let supported = IMAGE_USAGE_COLOR_ATTACHMENT_BIT | IMAGE_USAGE_TRANSFER_SRC_BIT;

    assert_eq!(
        validate_swapchain_image_usage(supported, 0),
        Ok(IMAGE_USAGE_COLOR_ATTACHMENT_BIT)
    );
    assert_eq!(
        validate_swapchain_image_usage(supported, IMAGE_USAGE_TRANSFER_SRC_BIT),
        Ok(supported)
    );
    assert!(matches!(
        validate_swapchain_image_usage(supported, IMAGE_USAGE_STORAGE_BIT),
        Err(SurfaceSupportError::ImageUsageUnsupported {
            required,
            supported: actual,
        }) if required == IMAGE_USAGE_COLOR_ATTACHMENT_BIT | IMAGE_USAGE_STORAGE_BIT
            && actual == supported
    ));
}

#[test]
fn every_acquired_frame_error_runs_recovery_before_returning() {
    let recovery_count = Cell::new(0);
    let result = recover_acquired_step::<(), _>(
        Err(RendererError::Init("injected acquired-frame failure")),
        || {
            recovery_count.set(recovery_count.get() + 1);
            Ok(())
        },
    );

    assert!(matches!(result, Err(AshViewportError::Renderer(_))));
    assert_eq!(recovery_count.get(), 1);
}

#[test]
fn acquired_frame_error_preserves_recovery_failure() {
    let result = recover_acquired_step::<(), _>(
        Err(RendererError::Init("injected acquired-frame failure")),
        || {
            Err(AshViewportError::InvalidCallbackArgument {
                callback: "injected recovery failure",
            })
        },
    );

    assert!(matches!(
        result,
        Err(AshViewportError::InvalidCallbackArgument { callback: "injected recovery failure" })
    ));
}

#[test]
fn successful_acquired_step_skips_recovery() {
    let recovery_count = Cell::new(0);
    let result = recover_acquired_step(Ok::<u32, RendererError>(5), || {
        recovery_count.set(recovery_count.get() + 1);
        Ok(())
    });
    assert_eq!(result, Ok(5));
    assert_eq!(recovery_count.get(), 0);
}

#[test]
fn failed_idle_keeps_acquired_frame_poisoned_until_sync_replacement() {
    let mut state = ViewportRuntimeState::Active;
    assert!(state.begin_acquire(2));

    let replacement_count = Cell::new(0);
    let first = advance_acquired_frame_recovery(
        &mut state,
        || {
            Err(AshViewportError::DeviceCompletionFailed {
                operation: "injected acquire recovery",
                source: RESULT_ERROR_OUT_OF_HOST_MEMORY,
            })
        },
        |_| {
            replacement_count.set(replacement_count.get() + 1);
            Ok(())
        },
    );

    assert!(matches!(
        first,
        Err(AshViewportError::DeviceCompletionFailed {
            operation: "injected acquire recovery",
            source: RESULT_ERROR_OUT_OF_HOST_MEMORY,
        })
    ));
    assert_eq!(state, ViewportRuntimeState::AcquireRecoveryRequired { frame_index: 2 });
    assert!(!state.can_acquire());
    assert_eq!(replacement_count.get(), 0);

    let second = advance_acquired_frame_recovery(
        &mut state,
        || Ok(DeviceIdleOutcome::Complete),
        |frame_index| {
            assert_eq!(frame_index, 2);
            replacement_count.set(replacement_count.get() + 1);
            Ok(())
        },
    );

    assert_eq!(second.unwrap(), DeviceIdleOutcome::Complete);
    assert_eq!(state, ViewportRuntimeState::RebuildRequired);
    assert!(!state.can_acquire());
    assert_eq!(replacement_count.get(), 1);
}

#[test]
fn failed_sync_replacement_keeps_acquired_frame_poisoned() {
    let mut state = ViewportRuntimeState::Active;
    assert!(state.begin_acquire(1));

    let result = advance_acquired_frame_recovery(
        &mut state,
        || Ok(DeviceIdleOutcome::Complete),
        |_| {
            Err(AshViewportError::InvalidCallbackArgument {
                callback: "injected frame-sync replacement",
            })
        },
    );

    assert!(matches!(
        result,
        Err(AshViewportError::InvalidCallbackArgument { callback: "injected frame-sync replacement" })
    ));
    assert_eq!(state, ViewportRuntimeState::AcquireRecoveryRequired { frame_index: 1 });
    assert!(!state.can_acquire());
}

#[test]
fn device_loss_terminally_fails_acquired_frame_recovery() {
    let mut state = ViewportRuntimeState::Active;
    assert!(state.begin_acquire(0));
    let replacement_count = Cell::new(0);

    let result = advance_acquired_frame_recovery(
        &mut state,
        || Ok(DeviceIdleOutcome::DeviceLost),
        |_| {
            replacement_count.set(replacement_count.get() + 1);
            Ok(())
        },
    );

    assert_eq!(result.unwrap(), DeviceIdleOutcome::DeviceLost);
    assert_eq!(state, ViewportRuntimeState::Failed);
    assert!(!state.can_acquire());
    assert_eq!(replacement_count.get(), 0);
}

#[test]
fn recovery_without_an_open_acquire_is_refused() {
    let mut state = ViewportRuntimeState::Paused;
    let result = advance_acquired_frame_recovery(
        &mut state,
        || Ok(DeviceIdleOutcome::Complete),
        |_| Ok(()),
    );
    assert_eq!(
        result,
        Err(AshViewportError::InvalidCallbackArgument { callback: "recover viewport acquire state" })
    );
    assert_eq!(state, ViewportRuntimeState::Paused);
}

#[test]
fn acquire_transaction_closes_only_on_its_own_slot() {
    let mut state = ViewportRuntimeState::Active;
    assert!(state.begin_acquire(3));
    assert!(!state.begin_acquire(4));
    assert_eq!(state.recovery_frame_index(), Some(3));
    assert!(!state.finish_acquire(1));
    assert_eq!(state, ViewportRuntimeState::AcquireRecoveryRequired { frame_index: 3 });
    assert!(state.finish_acquire(3));
    assert_eq!(state, ViewportRuntimeState::Active);
    assert_eq!(state.recovery_frame_index(), None);
    let mut paused = ViewportRuntimeState::Paused;
    assert!(!paused.begin_acquire(0));
    assert_eq!(paused, ViewportRuntimeState::Paused);
}

#[test]
fn present_semaphores_are_selected_by_acquired_image() {
    let semaphores = [11_u64, 22];
    assert_eq!(present_semaphore_for_image(&semaphores, 0), Some(11));
    assert_eq!(present_semaphore_for_image(&semaphores, 1), Some(22));
    assert_eq!(present_semaphore_for_image(&semaphores, 2), None);
}

#[test]
fn device_lost_is_terminal_but_other_wait_errors_are_retryable() {
    assert_eq!(classify_device_idle(Ok(())), Ok(DeviceIdleOutcome::Complete));
    assert_eq!(
        classify_device_idle(Err(RESULT_ERROR_DEVICE_LOST)),
        Ok(DeviceIdleOutcome::DeviceLost)
    );
    assert_eq!(
        classify_device_idle(Err(RESULT_ERROR_OUT_OF_HOST_MEMORY)),
        Err(RESULT_ERROR_OUT_OF_HOST_MEMORY)
    );
}

#[test]
fn terminal_faults_are_panics_device_loss_and_lost_ownership() {
    assert!(entry_fault_is_terminal(&AshViewportError::CallbackPanicked { callback: "x" }));
    assert!(entry_fault_is_terminal(&AshViewportError::DeviceLost { operation: "x" }));
    assert!(entry_fault_is_terminal(&AshViewportError::RendererUserDataOwnershipLost {
        callback: "x"
    }));
    assert!(entry_fault_is_terminal(&AshViewportError::Renderer(RendererError::Vulkan(
        RESULT_ERROR_DEVICE_LOST
    ))));
    assert!(entry_fault_is_terminal(&AshViewportError::Renderer(
        RendererError::RendererStateReplaced { field: "BackendRendererName" }
    )));
    assert!(!entry_fault_is_terminal(&AshViewportError::Renderer(RendererError::Vulkan(
        RESULT_ERROR_OUT_OF_HOST_MEMORY
    ))));
    assert!(!entry_fault_is_terminal(&AshViewportError::RuntimeDetached));
    assert!(entry_fault_is_terminal(&AshViewportError::SurfaceUnsupported(
        SurfaceSupportError::FormatsQuery(RESULT_ERROR_DEVICE_LOST)
    )));
}

#[test]
fn only_the_first_terminal_fault_is_reported() {
    let mut faults = RuntimeFaults::new();
    let mut lifecycle = RuntimeLifecycle::new();
    lifecycle.state = RuntimeState::Attached;
    let windows = RendererWindowSlots::empty();
    let mut flags = RENDERER_HAS_VIEWPORTS;
    assert!(!record_entry_fault(
        &mut lifecycle,
        &mut faults,
        &mut flags,
        &windows,
        true,
        AshViewportError::RuntimeDetached
    ));
    assert_eq!(lifecycle.state, RuntimeState::Attached);
    assert_eq!(flags, RENDERER_HAS_VIEWPORTS);
    assert!(record_entry_fault(
        &mut lifecycle,
        &mut faults,
        &mut flags,
        &windows,
        true,
        AshViewportError::CallbackPanicked { callback: "first" }
    ));
    assert_eq!(lifecycle.state, RuntimeState::ShuttingDown);
    assert_eq!(flags, 0);
    assert!(record_entry_fault(
        &mut lifecycle,
        &mut faults,
        &mut flags,
        &windows,
        true,
        AshViewportError::DeviceLost { operation: "second" }
    ));
    assert!(faults.has_pending());
    assert_eq!(faults.take_next(), Some(AshViewportError::RuntimeDetached));
    assert_eq!(faults.take_next(), Some(AshViewportError::CallbackPanicked { callback: "first" }));
    assert_eq!(faults.take_next(), None);
    assert!(!faults.has_pending());
}

#[test]
fn entry_reports_the_oldest_fault_before_the_lifecycle() {
    let mut faults = RuntimeFaults::new();
    faults.record_non_terminal(AshViewportError::FrameTraceAlreadyActive);
    let mut lifecycle = RuntimeLifecycle::new();
    assert_eq!(lifecycle.ensure_entry(&mut faults), Err(AshViewportError::FrameTraceAlreadyActive));
    assert_eq!(lifecycle.ensure_entry(&mut faults), Err(AshViewportError::RuntimeDetached));
    lifecycle.state = RuntimeState::Attached;
    assert_eq!(lifecycle.ensure_entry(&mut faults), Ok(()));
    let drained = {
        faults.record_non_terminal(AshViewportError::RuntimeDetached);
        faults.record_non_terminal(AshViewportError::FrameTraceAlreadyActive);
        faults.drain()
    };
    assert_eq!(
        drained,
        vec![AshViewportError::RuntimeDetached, AshViewportError::FrameTraceAlreadyActive]
    );
    assert!(!faults.has_pending());
}

#[test]
fn lifecycle_gates_callbacks_by_state_and_ownership() {
    let mut lifecycle = RuntimeLifecycle::new();
    let faults = RuntimeFaults::new();
    assert!(!lifecycle.is_callback_accessible());
    lifecycle.state = RuntimeState::Attached;
    assert!(lifecycle.is_callback_accessible());
    assert!(lifecycle.can_enter_callback(&faults));
    assert!(!lifecycle.should_validate_runtime_contract());
    lifecycle.mark_callback_claimed();
    assert_eq!(lifecycle.callback_state, CallbackState::Claimed);
    assert!(lifecycle.should_validate_runtime_contract());
    assert!(lifecycle.is_cleanup_callback_accessible());
    lifecycle.begin_shutdown();
    assert_eq!(lifecycle.state, RuntimeState::ShuttingDown);
    assert!(!lifecycle.is_callback_accessible());
    assert!(lifecycle.is_cleanup_callback_accessible());
    lifecycle.mark_detached();
    assert_eq!(lifecycle.state, RuntimeState::Detached);
    lifecycle.begin_shutdown();
    assert_eq!(lifecycle.state, RuntimeState::Detached);
    lifecycle.mark_callback_released();
    assert!(!lifecycle.is_cleanup_callback_accessible());
    let mut dropped = RuntimeLifecycle { state: RuntimeState::ResourceDropped, ..lifecycle };
    dropped.mark_detached();
    assert_eq!(dropped.state, RuntimeState::ResourceDropped);
}

#[test]
fn acquire_gate_rebuilds_inactive_viewports_and_skips_failed_ones() {
    assert_eq!(acquire_gate(ViewportRuntimeState::Active, true), AcquireGate::Proceed);
    assert_eq!(acquire_gate(ViewportRuntimeState::Active, false), AcquireGate::RebuildFirst);
    assert_eq!(acquire_gate(ViewportRuntimeState::RebuildRequired, true), AcquireGate::RebuildFirst);
    assert_eq!(acquire_gate(ViewportRuntimeState::Failed, true), AcquireGate::Skip);
}

#[test]
fn swapchain_results_rebuild_or_fail() {
    assert_eq!(classify_present(Ok(false), false), SwapchainOutcome::Done { rebuild: false });
    assert_eq!(classify_present(Ok(true), false), SwapchainOutcome::Done { rebuild: true });
    assert_eq!(classify_present(Ok(false), true), SwapchainOutcome::Done { rebuild: true });
    assert_eq!(classify_present(Err(RESULT_ERROR_OUT_OF_DATE_KHR), false), SwapchainOutcome::Rebuild);
    assert_eq!(classify_present(Err(RESULT_SUBOPTIMAL_KHR), false), SwapchainOutcome::Rebuild);
    assert_eq!(
        classify_present(Err(RESULT_ERROR_DEVICE_LOST), false),
        SwapchainOutcome::Fail(RESULT_ERROR_DEVICE_LOST)
    );
    assert_eq!(classify_acquire(Ok((2, true))), Ok((2, true)));
    assert_eq!(classify_acquire(Err(RESULT_ERROR_OUT_OF_DATE_KHR)), Err(SwapchainOutcome::Rebuild));
    assert_eq!(
        classify_acquire(Err(RESULT_ERROR_OUT_OF_HOST_MEMORY)),
        Err(SwapchainOutcome::Fail(RESULT_ERROR_OUT_OF_HOST_MEMORY))
    );
}

#[test]
fn present_takes_the_pending_image_or_fails_the_viewport() {
    let semaphores = [11_u64, 22];
    let mut state = ViewportRuntimeState::Active;
    let mut pending = None;
    assert_eq!(plan_present(&mut state, &mut pending, true, &semaphores), Ok(PresentPlan::Nothing));

    let mut pending = Some(1);
    assert_eq!(
        plan_present(&mut state, &mut pending, true, &semaphores),
        Ok(PresentPlan::Present { image_index: 1, semaphore: 22 })
    );
    assert_eq!(pending, None);

    let mut pending = Some(5);
    assert_eq!(
        plan_present(&mut state, &mut pending, true, &semaphores),
        Err(AshViewportError::InvalidCallbackArgument { callback: "Renderer_SwapBuffers image index" })
    );
    assert_eq!(state, ViewportRuntimeState::Failed);
    assert_eq!(pending, Some(5));

    let mut state = ViewportRuntimeState::Paused;
    let mut pending = Some(0);
    assert_eq!(
        plan_present(&mut state, &mut pending, true, &semaphores),
        Err(AshViewportError::InvalidCallbackArgument {
            callback: "Renderer_SwapBuffers runtime state"
        })
    );
    let mut state = ViewportRuntimeState::Active;
    assert_eq!(
        plan_present(&mut state, &mut pending, false, &semaphores),
        Err(AshViewportError::InvalidCallbackArgument { callback: "Renderer_SwapBuffers swapchain" })
    );
}

#[test]
fn no_renderer_clear_selects_discard_policy() {
    assert_eq!(viewport_attachment_load_op(false), ATTACHMENT_LOAD_OP_CLEAR);
    assert_eq!(viewport_attachment_load_op(true), ATTACHMENT_LOAD_OP_DONT_CARE);
}

#[test]
fn srgb_formats_are_recognised() {
    assert!(is_srgb_format(FORMAT_B8G8R8A8_SRGB));
    assert!(is_srgb_format(FORMAT_R8G8B8A8_SRGB));
    assert!(!is_srgb_format(FORMAT_B8G8R8A8_UNORM));
}

#[test]
fn dpi_only_framebuffer_extent_change_requires_swapchain_rebuild() {
    let previous = Some(Extent2D { width: 640, height: 480 });
    let scaled = Some(Extent2D { width: 960, height: 720 });
    assert!(extent_request_changed(previous, scaled));
    assert!(!extent_request_changed(scaled, scaled));
    assert!(extent_request_changed(scaled, None));
}

#[test]
fn auto_no_vsync_prefers_immediate_over_fifo() {
    let modes = [PRESENT_MODE_FIFO, PRESENT_MODE_IMMEDIATE];
    assert_eq!(resolve_present_mode(PresentModePolicy::AutoNoVsync, &modes), Ok(PRESENT_MODE_IMMEDIATE));
}

#[test]
fn auto_no_vsync_prefers_mailbox_over_fifo() {
    let modes = [PRESENT_MODE_FIFO, PRESENT_MODE_MAILBOX];
    assert_eq!(resolve_present_mode(PresentModePolicy::AutoNoVsync, &modes), Ok(PRESENT_MODE_MAILBOX));
}

#[test]
fn auto_no_vsync_safely_falls_back_to_fifo() {
    assert_eq!(
        resolve_present_mode(PresentModePolicy::AutoNoVsync, &[PRESENT_MODE_FIFO]),
        Ok(PRESENT_MODE_FIFO)
    );
}

#[test]
fn auto_vsync_prefers_fifo_relaxed_then_fifo() {
    assert_eq!(
        resolve_present_mode(
            PresentModePolicy::AutoVsync,
            &[PRESENT_MODE_FIFO, PRESENT_MODE_FIFO_RELAXED]
        ),
        Ok(PRESENT_MODE_FIFO_RELAXED)
    );
    assert_eq!(
        resolve_present_mode(PresentModePolicy::AutoVsync, &[PRESENT_MODE_FIFO]),
        Ok(PRESENT_MODE_FIFO)
    );
}

#[test]
fn unsupported_exact_present_mode_is_rejected() {
    assert_eq!(
        resolve_present_mode(PresentModePolicy::Exact(PRESENT_MODE_IMMEDIATE), &[PRESENT_MODE_FIFO]),
        Err(SurfaceSupportError::PresentModeUnsupported { requested: PRESENT_MODE_IMMEDIATE })
    );
}

#[test]
fn automatic_srgb_selection_matches_the_complete_surface_pair() {
    let hdr = SurfaceFormat { format: FORMAT_B8G8R8A8_SRGB, color_space: COLOR_SPACE_HDR10_ST2084 };
    let srgb = SurfaceFormat { format: FORMAT_B8G8R8A8_SRGB, color_space: COLOR_SPACE_SRGB_NONLINEAR };
    assert_eq!(resolve_surface_format(SurfaceFormatPolicy::AutoSrgb, &[hdr, srgb]), Ok(srgb));
}

#[test]
fn undefined_surface_format_sentinel_resolves_to_an_srgb_pair() {
    let undefined = SurfaceFormat { format: FORMAT_UNDEFINED, color_space: COLOR_SPACE_SRGB_NONLINEAR };
    assert_eq!(
        resolve_surface_format(SurfaceFormatPolicy::AutoSrgb, &[undefined]),
        Ok(SurfaceFormat { format: FORMAT_B8G8R8A8_SRGB, color_space: COLOR_SPACE_SRGB_NONLINEAR })
    );
}

#[test]
fn undefined_surface_format_sentinel_preserves_its_color_space() {
    let undefined_hdr = SurfaceFormat { format: FORMAT_UNDEFINED, color_space: COLOR_SPACE_HDR10_ST2084 };
    let requested = SurfaceFormat {
        format: FORMAT_A2B10G10R10_UNORM_PACK32,
        color_space: COLOR_SPACE_HDR10_ST2084,
    };
    assert_eq!(
        resolve_surface_format(SurfaceFormatPolicy::Exact(requested), &[undefined_hdr]),
        Ok(requested)
    );
    assert_eq!(
        resolve_surface_format(SurfaceFormatPolicy::AutoSrgb, &[undefined_hdr]),
        Err(SurfaceSupportError::SrgbSurfaceFormatUnsupported)
    );
}

#[test]
fn exact_surface_policy_rejects_undefined_as_a_swapchain_format() {
    let undefined = SurfaceFormat { format: FORMAT_UNDEFINED, color_space: COLOR_SPACE_SRGB_NONLINEAR };
    assert_eq!(
        resolve_surface_format(SurfaceFormatPolicy::Exact(undefined), &[undefined]),
        Err(SurfaceSupportError::SurfaceFormatUnsupported { requested: undefined })
    );
}

#[test]
fn main_surface_policy_copies_the_pair_and_vsync_intent() {
    let pair = SurfaceFormat { format: FORMAT_B8G8R8A8_SRGB, color_space: COLOR_SPACE_SRGB_NONLINEAR };
    assert_eq!(
        ViewportSwapchainPolicy::from_main_surface(pair, PRESENT_MODE_FIFO),
        ViewportSwapchainPolicy {
            surface_format: SurfaceFormatPolicy::Exact(pair),
            present_mode: PresentModePolicy::AutoVsync,
        }
    );
    assert_eq!(
        ViewportSwapchainPolicy::from_main_surface(pair, PRESENT_MODE_IMMEDIATE),
        ViewportSwapchainPolicy {
            surface_format: SurfaceFormatPolicy::Exact(pair),
            present_mode: PresentModePolicy::AutoNoVsync,
        }
    );
}

fn pair(format: i32, color_space: i32) -> SurfaceFormat {
    SurfaceFormat { format, color_space }
}

#[test]
fn window_swapchain_format_prefers_srgb_then_unorm_then_first() {
    assert_eq!(
        pick_surface_format(&[pair(FORMAT_UNDEFINED, COLOR_SPACE_HDR10_ST2084)]),
        pair(FORMAT_B8G8R8A8_SRGB, COLOR_SPACE_SRGB_NONLINEAR)
    );
    assert_eq!(
        pick_surface_format(&[
            pair(FORMAT_R8G8B8A8_UNORM, COLOR_SPACE_SRGB_NONLINEAR),
            pair(FORMAT_R8G8B8A8_SRGB, COLOR_SPACE_HDR10_ST2084),
            pair(FORMAT_R8G8B8A8_SRGB, COLOR_SPACE_SRGB_NONLINEAR),
        ]),
        pair(FORMAT_R8G8B8A8_SRGB, COLOR_SPACE_HDR10_ST2084)
    );
    assert_eq!(
        pick_surface_format(&[
            pair(FORMAT_R8G8B8A8_UNORM, COLOR_SPACE_SRGB_NONLINEAR),
            pair(FORMAT_B8G8R8A8_UNORM, COLOR_SPACE_SRGB_NONLINEAR),
        ]),
        pair(FORMAT_B8G8R8A8_UNORM, COLOR_SPACE_SRGB_NONLINEAR)
    );
    assert_eq!(
        pick_surface_format(&[
            pair(FORMAT_A2B10G10R10_UNORM_PACK32, COLOR_SPACE_HDR10_ST2084),
            pair(FORMAT_R8G8B8A8_UNORM, COLOR_SPACE_SRGB_NONLINEAR),
        ]),
        pair(FORMAT_R8G8B8A8_UNORM, COLOR_SPACE_SRGB_NONLINEAR)
    );
    assert_eq!(
        pick_surface_format(&[pair(FORMAT_A2B10G10R10_UNORM_PACK32, COLOR_SPACE_HDR10_ST2084)]),
        pair(FORMAT_A2B10G10R10_UNORM_PACK32, COLOR_SPACE_HDR10_ST2084)
    );
    assert_eq!(
        pick_surface_format(&[]),
        pair(FORMAT_B8G8R8A8_UNORM, COLOR_SPACE_SRGB_NONLINEAR)
    );
}

#[test]
fn window_swapchain_present_mode_prefers_mailbox() {
    assert_eq!(
        pick_present_mode(&[PRESENT_MODE_FIFO, PRESENT_MODE_MAILBOX]),
        PRESENT_MODE_MAILBOX
    );
    assert_eq!(pick_present_mode(&[PRESENT_MODE_IMMEDIATE]), PRESENT_MODE_FIFO);
    assert_eq!(pick_present_mode(&[]), PRESENT_MODE_FIFO);
}

#[test]
fn render_callback_recovers_rebuilds_or_skips_before_acquiring() {
    // A present still pending skips the frame.
    assert_eq!(render_entry_step(true, ViewportRuntimeState::Active, 2, false, true, true, false), RenderEntryStep::Skip);
    // An abandoned acquire is recovered first.
    assert_eq!(
        render_entry_step(false, ViewportRuntimeState::AcquireRecoveryRequired { frame_index: 1 }, 2, false, true, true, false),
        RenderEntryStep::Recover { frame_index: 1 }
    );
    assert_eq!(render_entry_step(false, ViewportRuntimeState::Active, 0, false, true, true, false), RenderEntryStep::Skip);
    // A new extent request rebuilds, unless the viewport failed.
    assert_eq!(
        render_entry_step(false, ViewportRuntimeState::Active, 2, true, true, true, false),
        RenderEntryStep::Rebuild { for_acquire: false }
    );
    assert_eq!(render_entry_step(false, ViewportRuntimeState::Failed, 2, true, true, true, false), RenderEntryStep::Skip);
    // A paused viewport without a drawable extent renders nothing.
    assert_eq!(render_entry_step(false, ViewportRuntimeState::Paused, 2, false, false, false, false), RenderEntryStep::Skip);
    assert_eq!(
        render_entry_step(false, ViewportRuntimeState::Paused, 2, false, true, false, false),
        RenderEntryStep::Rebuild { for_acquire: true }
    );
    assert_eq!(render_entry_step(false, ViewportRuntimeState::Active, 2, false, true, true, false), RenderEntryStep::Acquire);
    assert_eq!(
        render_entry_step(false, ViewportRuntimeState::Active, 2, false, true, false, false),
        RenderEntryStep::Rebuild { for_acquire: true }
    );
    // After that rebuild the viewport acquires only if it became active.
    assert_eq!(render_entry_step(false, ViewportRuntimeState::Active, 2, false, true, false, true), RenderEntryStep::Acquire);
    assert_eq!(render_entry_step(false, ViewportRuntimeState::RebuildRequired, 2, false, true, false, true), RenderEntryStep::Skip);
}

#[test]
fn swapchain_rebuild_never_revives_a_failed_viewport() {
    let mut state = ViewportRuntimeState::Failed;
    let mut pending = Some(2_u32);
    let mut rebuild_after_present = true;
    assert_eq!(
        begin_swapchain_rebuild(&mut state, &mut pending, &mut rebuild_after_present),
        Err(RendererError::InvalidRenderState("cannot rebuild a failed viewport runtime"))
    );
    assert_eq!((state, pending, rebuild_after_present), (ViewportRuntimeState::Failed, Some(2), true));

    let mut state = ViewportRuntimeState::Active;
    assert_eq!(begin_swapchain_rebuild(&mut state, &mut pending, &mut rebuild_after_present), Ok(()));
    assert_eq!((state, pending, rebuild_after_present), (ViewportRuntimeState::RebuildRequired, None, false));
    finish_swapchain_rebuild(&mut state, false);
    assert_eq!(state, ViewportRuntimeState::Paused);
    finish_swapchain_rebuild(&mut state, true);
    assert_eq!(state, ViewportRuntimeState::Active);
}
