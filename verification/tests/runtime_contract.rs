use dear_imgui_ash::context_state::{CallbackSlot, RendererWindowSlots, RENDERER_HAS_VIEWPORTS};
use dear_imgui_ash::error::RendererError;
use dear_imgui_ash::swapchain::SurfaceSupportError;
use dear_imgui_ash::viewport_contract::{
    claim_callbacks, detect_and_take_fault, device_idle_outcome, preflight_attachment, preflight_callbacks, record_entry_fault,
    record_runtime_contract_fault, release_callbacks, PlatformViewportSupport,
    PLATFORM_HAS_VIEWPORTS,
};
use dear_imgui_ash::viewport_runtime::{
    ensure_frame_runtime, ensure_matching_frame_context, finish_route_preparation, first_error,
    map_renderer_shutdown_result, prepare_route_for_context, owner_drop_action, plan_shutdown, AshViewportError,
    ContextLifecycle, DeviceIdleOutcome, OwnerDropAction, RuntimeFaults, RuntimeLifecycle,
    AshViewportRouteFault, RuntimeState, ShutdownAction, ShutdownStep,
};
use dear_imgui_ash::viewport_registry::{
    renderer_data_pointer, RegisteredRuntime, RuntimeRegistry, ViewportDataBlocks,
};
use dear_imgui_ash::vulkan_values::{RESULT_ERROR_DEVICE_LOST, RESULT_ERROR_OUT_OF_HOST_MEMORY};

const SLOT_NAMES: [&str; 5] = [
    "Renderer_CreateWindow",
    "Renderer_DestroyWindow",
    "Renderer_SetWindowSize",
    "Renderer_RenderWindow",
    "Renderer_SwapBuffers",
];

fn set_slot(windows: &mut RendererWindowSlots, slot: usize, value: CallbackSlot) {
    match slot {
        0 => windows.create_window = value,
        1 => windows.destroy_window = value,
        2 => windows.set_window_size = value,
        3 => windows.render_window = value,
        4 => windows.swap_buffers = value,
        _ => unreachable!(),
    }
}

fn slot(windows: &RendererWindowSlots, slot: usize) -> CallbackSlot {
    match slot {
        0 => windows.create_window,
        1 => windows.destroy_window,
        2 => windows.set_window_size,
        3 => windows.render_window,
        4 => windows.swap_buffers,
        _ => unreachable!(),
    }
}

fn platform() -> PlatformViewportSupport {
    PlatformViewportSupport { create_window: true, destroy_window: true }
}

/// An attached runtime that claimed the callback table of a Context with a platform backend.
struct Attached {
    lifecycle: RuntimeLifecycle,
    faults: RuntimeFaults,
    flags: i32,
    platform: PlatformViewportSupport,
    windows: RendererWindowSlots,
}

impl Attached {
    fn new() -> Attached {
        let mut flags = PLATFORM_HAS_VIEWPORTS;
        let mut windows = RendererWindowSlots::empty();
        assert_eq!(preflight_callbacks(flags, &platform(), true, &windows, &[]), Ok(()));
        claim_callbacks(&mut windows, &mut flags);
        let mut lifecycle = RuntimeLifecycle::new();
        lifecycle.state = RuntimeState::Attached;
        lifecycle.mark_callback_claimed();
        Attached { lifecycle, faults: RuntimeFaults::new(), flags, platform: platform(), windows }
    }

    fn poll_fault_with(&mut self, renderer_contract: Result<(), AshViewportError>) -> Option<AshViewportError> {
        detect_and_take_fault(
            &mut self.lifecycle,
            &mut self.faults,
            &mut self.flags,
            &self.platform,
            &self.windows,
            renderer_contract,
            false,
        )
    }

    fn poll_fault(&mut self) -> Option<AshViewportError> {
        self.poll_fault_with(Ok(()))
    }

    fn can_enter(&self) -> bool {
        self.lifecycle.can_enter_callback(&self.faults)
    }

    fn has_viewports(&self) -> bool {
        self.flags & RENDERER_HAS_VIEWPORTS != 0
    }

    fn shutdown(&mut self) -> Result<(), AshViewportError> {
        self.lifecycle.begin_shutdown();
        let result = release_callbacks(&mut self.windows, &mut self.flags, false);
        self.lifecycle.mark_callback_released();
        self.lifecycle.mark_detached();
        result
    }
}

#[test]
fn every_occupied_renderer_slot_rejects_attach_transactionally() {
    for index in 0..5 {
        let flags = PLATFORM_HAS_VIEWPORTS;
        let mut windows = RendererWindowSlots::empty();
        set_slot(&mut windows, index, CallbackSlot::Foreign);
        let before = windows;
        assert_eq!(
            preflight_callbacks(flags, &platform(), true, &windows, &[]),
            Err(AshViewportError::RendererCallbackOccupied { callback: SLOT_NAMES[index] })
        );
        assert_eq!(windows, before);
        assert_eq!(slot(&windows, index), CallbackSlot::Foreign);
    }
}

#[test]
fn occupied_renderer_viewport_capability_rejects_attach_transactionally() {
    let flags = PLATFORM_HAS_VIEWPORTS | RENDERER_HAS_VIEWPORTS;
    let windows = RendererWindowSlots::empty();
    assert_eq!(
        preflight_callbacks(flags, &platform(), true, &windows, &[]),
        Err(AshViewportError::RendererViewportCapabilityOccupied)
    );
    assert_eq!(windows, RendererWindowSlots::empty());
    assert_ne!(flags & RENDERER_HAS_VIEWPORTS, 0);
}

#[test]
fn device_loss_wrapped_by_a_surface_query_is_terminal() {
    let mut runtime = Attached::new();
    let fault = AshViewportError::SurfaceUnsupported(SurfaceSupportError::CapabilitiesQuery(
        RESULT_ERROR_DEVICE_LOST,
    ));
    assert!(record_entry_fault(
        &mut runtime.lifecycle,
        &mut runtime.faults,
        &mut runtime.flags,
        &runtime.windows,
        false,
        fault.clone()
    ));
    assert_eq!(runtime.lifecycle.state, RuntimeState::ShuttingDown);
    assert!(!runtime.has_viewports());
    assert_eq!(runtime.poll_fault(), Some(fault));
    assert_eq!(runtime.shutdown(), Ok(()));
}

#[test]
fn renderer_state_drift_is_a_terminal_entry_fault() {
    let mut runtime = Attached::new();
    let fault = AshViewportError::Renderer(RendererError::RendererStateReplaced {
        field: "BackendRendererUserData",
    });
    assert!(record_entry_fault(
        &mut runtime.lifecycle,
        &mut runtime.faults,
        &mut runtime.flags,
        &runtime.windows,
        false,
        fault.clone()
    ));
    assert_eq!(runtime.lifecycle.state, RuntimeState::ShuttingDown);
    assert!(!runtime.has_viewports());
    assert_eq!(runtime.poll_fault(), Some(fault));
    assert!(!runtime.can_enter());
    assert_eq!(runtime.shutdown(), Ok(()));
}

#[test]
fn device_loss_from_each_vulkan_callback_stage_is_terminal() {
    for _operation in ["wait_for_fences", "acquire_next_image", "queue_submit", "queue_present"] {
        let mut runtime = Attached::new();
        let fault = AshViewportError::Renderer(RendererError::Vulkan(RESULT_ERROR_DEVICE_LOST));
        assert!(record_entry_fault(
            &mut runtime.lifecycle,
            &mut runtime.faults,
            &mut runtime.flags,
            &runtime.windows,
            false,
            fault.clone()
        ));
        assert_eq!(runtime.lifecycle.state, RuntimeState::ShuttingDown);
        assert!(!runtime.has_viewports());
        assert_eq!(runtime.poll_fault(), Some(fault));
        assert!(!runtime.can_enter());
        assert_eq!(runtime.shutdown(), Ok(()));
    }
}

#[test]
fn recoverable_surface_fault_remains_non_terminal() {
    let mut runtime = Attached::new();
    // VK_ERROR_SURFACE_LOST_KHR.
    let fault = AshViewportError::SurfaceUnsupported(SurfaceSupportError::CapabilitiesQuery(
        -1000000000,
    ));
    assert!(!record_entry_fault(
        &mut runtime.lifecycle,
        &mut runtime.faults,
        &mut runtime.flags,
        &runtime.windows,
        false,
        fault.clone()
    ));
    assert_eq!(runtime.lifecycle.state, RuntimeState::Attached);
    assert!(runtime.has_viewports());
    assert_eq!(runtime.poll_fault(), Some(fault));
    assert!(runtime.can_enter());
    assert_eq!(runtime.shutdown(), Ok(()));
}

#[test]
fn renderer_fault_queue_preserves_observation_order_and_first_terminal_fault() {
    let mut runtime = Attached::new();
    runtime.faults.record_non_terminal(AshViewportError::CallbackReentered {
        callback: "earlier recoverable fault",
    });
    runtime.faults.record_non_terminal(AshViewportError::CallbackReentered {
        callback: "second recoverable fault",
    });
    record_runtime_contract_fault(
        &mut runtime.lifecycle,
        &mut runtime.faults,
        &mut runtime.flags,
        &runtime.windows,
        false,
        AshViewportError::RendererCallbackReplaced { callback: "terminal contract fault" },
    );
    assert_eq!(
        runtime.poll_fault(),
        Some(AshViewportError::CallbackReentered { callback: "earlier recoverable fault" })
    );
    assert_eq!(
        runtime.poll_fault(),
        Some(AshViewportError::CallbackReentered { callback: "second recoverable fault" })
    );
    assert_eq!(
        runtime.poll_fault(),
        Some(AshViewportError::RendererCallbackReplaced { callback: "terminal contract fault" })
    );
    assert_eq!(runtime.shutdown(), Ok(()));
}

#[test]
fn direct_trampoline_skips_remaining_callback_after_another_slot_drifts() {
    let mut runtime = Attached::new();
    runtime.windows.destroy_window = CallbackSlot::Foreign;
    assert_eq!(
        runtime.poll_fault(),
        Some(AshViewportError::RendererCallbackReplaced { callback: "Renderer_DestroyWindow" })
    );
    assert!(!runtime.can_enter());
    assert!(!runtime.has_viewports());
    runtime.windows.destroy_window = CallbackSlot::Ash;
    assert_eq!(runtime.shutdown(), Ok(()));
}

#[test]
fn public_entry_fails_closed_when_renderer_capability_is_lost() {
    let mut runtime = Attached::new();
    runtime.flags &= !RENDERER_HAS_VIEWPORTS;
    assert_eq!(runtime.poll_fault(), Some(AshViewportError::RendererViewportCapabilityLost));
    assert_eq!(runtime.lifecycle.state, RuntimeState::ShuttingDown);
    assert!(!runtime.can_enter());
    assert_eq!(runtime.shutdown(), Ok(()));
}

#[test]
fn core_renderer_drift_stops_direct_c_callbacks_and_enters_shutdown() {
    let mut runtime = Attached::new();
    let replaced = AshViewportError::Renderer(RendererError::RendererStateReplaced {
        field: "BackendRendererName",
    });
    assert_eq!(runtime.poll_fault_with(Err(replaced.clone())), Some(replaced.clone()));
    assert!(!runtime.can_enter());
    assert_eq!(runtime.lifecycle.state, RuntimeState::ShuttingDown);
    assert!(!runtime.has_viewports());
    assert_eq!(runtime.poll_fault_with(Err(replaced)), None);
    assert!(!runtime.can_enter());
    assert_eq!(runtime.shutdown(), Ok(()));
}

#[test]
fn public_drift_check_clears_only_the_runtime_context_capability() {
    let mut runtime = Attached::new();
    runtime.windows.destroy_window = CallbackSlot::Foreign;
    let other_context_flags = RENDERER_HAS_VIEWPORTS;
    assert_eq!(
        runtime.poll_fault(),
        Some(AshViewportError::RendererCallbackReplaced { callback: "Renderer_DestroyWindow" })
    );
    assert_ne!(other_context_flags & RENDERER_HAS_VIEWPORTS, 0);
    assert!(!runtime.has_viewports());
    runtime.windows.destroy_window = CallbackSlot::Ash;
    assert_eq!(runtime.shutdown(), Ok(()));
}

#[test]
fn direct_trampoline_requires_complete_platform_dependencies() {
    for missing in 0..3 {
        let mut runtime = Attached::new();
        match missing {
            0 => runtime.flags &= !PLATFORM_HAS_VIEWPORTS,
            1 => runtime.platform.create_window = false,
            2 => runtime.platform.destroy_window = false,
            _ => unreachable!(),
        }
        let fault = runtime.poll_fault();
        assert!(!runtime.can_enter());
        match missing {
            0 => assert_eq!(fault, Some(AshViewportError::PlatformBackendUnavailable)),
            1 => assert_eq!(
                fault,
                Some(AshViewportError::PlatformCallbackUnavailable { callback: "Platform_CreateWindow" })
            ),
            2 => assert_eq!(
                fault,
                Some(AshViewportError::PlatformCallbackUnavailable { callback: "Platform_DestroyWindow" })
            ),
            _ => unreachable!(),
        }
        assert!(!runtime.has_viewports());
        assert_eq!(runtime.lifecycle.state, RuntimeState::ShuttingDown);
        assert_eq!(runtime.shutdown(), Ok(()));
    }
}

#[test]
fn every_foreign_callback_replacement_is_preserved_during_shutdown() {
    for (index, expected) in SLOT_NAMES.into_iter().enumerate() {
        let mut runtime = Attached::new();
        set_slot(&mut runtime.windows, index, CallbackSlot::Foreign);
        assert_eq!(
            runtime.poll_fault(),
            Some(AshViewportError::RendererCallbackReplaced { callback: expected })
        );
        assert!(!runtime.has_viewports());
        assert_eq!(
            runtime.shutdown(),
            Err(AshViewportError::RendererCallbackReplaced { callback: expected })
        );
        assert_eq!(slot(&runtime.windows, index), CallbackSlot::Foreign);
    }
}

#[test]
fn complete_foreign_callback_takeover_preserves_foreign_capability_during_fault_and_release() {
    let mut runtime = Attached::new();
    for index in 0..5 {
        set_slot(&mut runtime.windows, index, CallbackSlot::Foreign);
    }
    assert_eq!(
        runtime.poll_fault(),
        Some(AshViewportError::RendererCallbackReplaced { callback: "Renderer_CreateWindow" })
    );
    assert!(runtime.has_viewports());
    assert_eq!(
        runtime.shutdown(),
        Err(AshViewportError::RendererCallbackReplaced { callback: "Renderer_CreateWindow" })
    );
    assert!(runtime.has_viewports());
    for index in 0..5 {
        assert_eq!(slot(&runtime.windows, index), CallbackSlot::Foreign);
    }
}

#[test]
fn owned_callback_table_is_complete_after_publish() {
    let mut runtime = Attached::new();
    for index in 0..5 {
        assert_eq!(slot(&runtime.windows, index), CallbackSlot::Ash);
    }
    assert_eq!(runtime.shutdown(), Ok(()));
    assert!(!runtime.has_viewports());
}

#[test]
fn device_wait_loss_is_recorded_but_reported_as_an_outcome() {
    let mut runtime = Attached::new();
    assert_eq!(
        device_idle_outcome(
            &mut runtime.lifecycle,
            &mut runtime.faults,
            &mut runtime.flags,
            &runtime.windows,
            false,
            Ok(()),
            "viewport destroy"
        ),
        Ok(DeviceIdleOutcome::Complete)
    );
    assert!(runtime.can_enter());
    assert_eq!(
        device_idle_outcome(
            &mut runtime.lifecycle,
            &mut runtime.faults,
            &mut runtime.flags,
            &runtime.windows,
            false,
            Err(RESULT_ERROR_OUT_OF_HOST_MEMORY),
            "viewport destroy"
        ),
        Err(AshViewportError::DeviceCompletionFailed {
            operation: "viewport destroy",
            source: RESULT_ERROR_OUT_OF_HOST_MEMORY
        })
    );
    assert_eq!(runtime.lifecycle.state, RuntimeState::Attached);
    assert!(runtime.has_viewports());
    assert_eq!(
        device_idle_outcome(
            &mut runtime.lifecycle,
            &mut runtime.faults,
            &mut runtime.flags,
            &runtime.windows,
            false,
            Err(RESULT_ERROR_DEVICE_LOST),
            "viewport destroy"
        ),
        Ok(DeviceIdleOutcome::DeviceLost)
    );
    assert_eq!(runtime.lifecycle.state, RuntimeState::ShuttingDown);
    assert!(!runtime.has_viewports());
    assert_eq!(runtime.poll_fault(), Some(AshViewportError::DeviceLost { operation: "viewport destroy" }));
}

#[test]
fn shutdown_runs_once_and_owner_drop_defers_to_a_live_context() {
    assert_eq!(
        plan_shutdown(RuntimeState::Attached, ShutdownAction::Explicit),
        ShutdownStep::Run(ShutdownAction::Explicit)
    );
    assert_eq!(
        plan_shutdown(RuntimeState::ResourceDropped, ShutdownAction::Explicit),
        ShutdownStep::AlreadyReleased { detach: true }
    );
    assert_eq!(
        plan_shutdown(RuntimeState::ResourceDropped, ShutdownAction::ContextTeardown),
        ShutdownStep::AlreadyReleased { detach: false }
    );
    assert_eq!(
        owner_drop_action(RuntimeState::Attached, ContextLifecycle::Alive),
        OwnerDropAction::DeferToContext
    );
    assert_eq!(
        owner_drop_action(RuntimeState::Attached, ContextLifecycle::Dropping),
        OwnerDropAction::Nothing
    );
    assert_eq!(
        owner_drop_action(RuntimeState::Detached, ContextLifecycle::NativeDestroyed),
        OwnerDropAction::RetryCleanup
    );
    assert_eq!(
        owner_drop_action(RuntimeState::ResourceDropped, ContextLifecycle::NativeDestroyed),
        OwnerDropAction::Nothing
    );
}

#[test]
fn renderer_release_settles_only_after_destruction() {
    let mut lifecycle = RuntimeLifecycle::new();
    lifecycle.state = RuntimeState::Detached;
    let lost = Err(RendererError::Vulkan(RESULT_ERROR_DEVICE_LOST));
    assert_eq!(
        lifecycle.settle_renderer_release(false, lost.clone(), "renderer teardown"),
        Err(AshViewportError::Renderer(RendererError::Vulkan(RESULT_ERROR_DEVICE_LOST)))
    );
    assert_eq!(lifecycle.state, RuntimeState::Detached);
    assert_eq!(
        lifecycle.settle_renderer_release(true, lost, "renderer teardown"),
        Err(AshViewportError::DeviceLost { operation: "renderer teardown" })
    );
    assert_eq!(lifecycle.state, RuntimeState::ResourceDropped);
    assert_eq!(
        map_renderer_shutdown_result(Err(RendererError::RendererDestroyed), "renderer shutdown"),
        Err(AshViewportError::Renderer(RendererError::RendererDestroyed))
    );
    assert_eq!(map_renderer_shutdown_result(Ok(()), "renderer shutdown"), Ok(()));
    assert_eq!(
        first_error(Err(AshViewportError::RuntimeDetached), Err(AshViewportError::FrameTraceAlreadyActive)),
        Err(AshViewportError::RuntimeDetached)
    );
    assert_eq!(
        first_error(Ok(()), Err(AshViewportError::FrameTraceAlreadyActive)),
        Err(AshViewportError::FrameTraceAlreadyActive)
    );
    assert_eq!(first_error(Ok(()), Ok(())), Ok(()));
}

#[test]
fn route_error_retains_renderer_then_platform_fault_order() {
    let mut runtime = Attached::new();
    runtime.faults.record_non_terminal(AshViewportError::CallbackReentered { callback: "renderer first" });
    runtime.faults.record_non_terminal(AshViewportError::CallbackPanicked { callback: "renderer second" });
    let drained = runtime.faults.drain();
    let error = finish_route_preparation::<u32, &str>(None, drained, vec!["platform first", "platform second"])
        .unwrap_err();
    assert_eq!(error.len(), 4);
    assert_eq!(
        error,
        vec![
            AshViewportRouteFault::Renderer(AshViewportError::CallbackReentered { callback: "renderer first" }),
            AshViewportRouteFault::Renderer(AshViewportError::CallbackPanicked { callback: "renderer second" }),
            AshViewportRouteFault::Platform("platform first"),
            AshViewportRouteFault::Platform("platform second"),
        ]
    );
    assert_eq!(runtime.shutdown(), Ok(()));
}

#[test]
fn route_preparation_reports_the_renderer_failure_first_or_returns_the_frame() {
    assert_eq!(
        finish_route_preparation::<u32, &str>(
            Some(Err(AshViewportError::FrameTraceAlreadyActive)),
            vec![AshViewportError::RuntimeDetached],
            vec!["platform"]
        ),
        Err(vec![
            AshViewportRouteFault::Renderer(AshViewportError::FrameTraceAlreadyActive),
            AshViewportRouteFault::Renderer(AshViewportError::RuntimeDetached),
            AshViewportRouteFault::Platform("platform"),
        ])
    );
    assert_eq!(finish_route_preparation::<u32, &str>(Some(Ok(5)), vec![], vec![]), Ok(5));
    assert_eq!(
        finish_route_preparation::<u32, &str>(None, vec![], vec![]),
        Err(vec![AshViewportRouteFault::Renderer(AshViewportError::RuntimeDetached)])
    );
}

#[test]
fn public_route_rejects_foreign_frame_before_platform_or_renderer_side_effects() {
    let mut target = Attached::new();
    let expected = 1_u64;
    let actual = 2_u64;
    target.faults.record_non_terminal(AshViewportError::CallbackReentered { callback: "queued renderer fault" });
    let platform_scope_called = std::cell::Cell::new(false);
    let mut platform_faults = vec!["queued platform fault one", "queued platform fault two"];
    let error = prepare_route_for_context::<u32, &str, _>(expected, actual, &mut target.faults, || {
        platform_scope_called.set(true);
        let faults: Vec<&str> = platform_faults.drain(..).collect();
        (None, faults)
    })
    .unwrap_err();
    assert!(!platform_scope_called.get());
    assert_eq!(platform_faults.len(), 2);
    assert_eq!(
        error,
        vec![AshViewportRouteFault::Renderer(AshViewportError::ContextMismatch { expected, actual })]
    );
    assert_eq!(
        target.poll_fault(),
        Some(AshViewportError::CallbackReentered { callback: "queued renderer fault" })
    );
}

#[test]
fn owning_runtime_rejects_foreign_frame_before_target_fault_or_renderer_entry() {
    let mut target = Attached::new();
    target.faults.record_non_terminal(AshViewportError::CallbackPanicked {
        callback: "queued before owning prepare",
    });
    assert_eq!(
        ensure_matching_frame_context(1, 2),
        Err(AshViewportError::ContextMismatch { expected: 1, actual: 2 })
    );
    assert_eq!(
        target.poll_fault(),
        Some(AshViewportError::CallbackPanicked { callback: "queued before owning prepare" })
    );
    assert_eq!(ensure_matching_frame_context(1, 1), Ok(()));
}

#[test]
fn frame_runtime_identity_mismatch_is_rejected_before_target_faults_are_consumed() {
    let mut runtime_a = Attached::new();
    runtime_a.faults.record_non_terminal(AshViewportError::CallbackReentered {
        callback: "queued before runtime validation",
    });
    assert_eq!(ensure_frame_runtime(true, 1, 1), Ok(()));
    assert_eq!(
        ensure_frame_runtime(false, 1, 2),
        Err(AshViewportError::FrameTransactionRuntimeMismatch { expected: 1, actual: 2 })
    );
    assert_eq!(
        runtime_a.poll_fault(),
        Some(AshViewportError::CallbackReentered { callback: "queued before runtime validation" })
    );
}

#[test]
fn matching_route_runs_the_platform_scope_and_reports_queued_faults() {
    let mut target = Attached::new();
    assert_eq!(
        prepare_route_for_context::<u32, &str, _>(3, 3, &mut target.faults, || (Some(Ok(9)), vec![])),
        Ok(9)
    );
    target.faults.record_non_terminal(AshViewportError::RuntimeDetached);
    assert_eq!(
        prepare_route_for_context::<u32, &str, _>(3, 3, &mut target.faults, || (Some(Ok(9)), vec!["late"])),
        Err(vec![AshViewportRouteFault::Renderer(AshViewportError::RuntimeDetached), AshViewportRouteFault::Platform("late")])
    );
    assert!(!target.faults.has_pending());
}

#[test]
fn renderer_lease_failure_precedes_attach_publication() {
    let flags = PLATFORM_HAS_VIEWPORTS;
    let mut windows = RendererWindowSlots::empty();
    windows.create_window = CallbackSlot::Foreign;
    let mut registry = RuntimeRegistry::new();
    assert_eq!(
        preflight_attachment(
            Err(AshViewportError::Renderer(RendererError::RendererDestroyed)),
            flags,
            &platform(),
            true,
            &windows,
            &[],
            &mut registry,
            1,
            &[]
        ),
        Err(AshViewportError::Renderer(RendererError::RendererDestroyed))
    );
    assert_eq!(windows.create_window, CallbackSlot::Foreign);
    assert_eq!(flags & RENDERER_HAS_VIEWPORTS, 0);

    windows.create_window = CallbackSlot::Empty;
    assert_eq!(
        preflight_attachment(Ok(()), flags, &platform(), true, &windows, &[], &mut registry, 1, &[]),
        Ok(())
    );
    registry.register(RegisteredRuntime { context_raw: 0x100, context_id: 1, control: 7 }, &[]);
    assert_eq!(
        preflight_attachment(Ok(()), flags, &platform(), true, &windows, &[], &mut registry, 1, &[]),
        Err(AshViewportError::RuntimeAlreadyAttached)
    );
    assert_eq!(
        preflight_attachment(Ok(()), 0, &platform(), true, &windows, &[], &mut registry, 1, &[]),
        Err(AshViewportError::PlatformBackendUnavailable)
    );
}

#[test]
fn callback_panic_and_reentry_are_deferred_to_rust_entry() {
    let mut runtime = Attached::new();
    assert!(!record_entry_fault(
        &mut runtime.lifecycle,
        &mut runtime.faults,
        &mut runtime.flags,
        &runtime.windows,
        false,
        AshViewportError::CallbackReentered { callback: "Renderer_RenderWindow" }
    ));
    assert_eq!(
        runtime.poll_fault(),
        Some(AshViewportError::CallbackReentered { callback: "Renderer_RenderWindow" })
    );

    assert!(record_entry_fault(
        &mut runtime.lifecycle,
        &mut runtime.faults,
        &mut runtime.flags,
        &runtime.windows,
        false,
        AshViewportError::CallbackPanicked { callback: "Renderer_RenderWindow" }
    ));
    assert_eq!(
        runtime.poll_fault(),
        Some(AshViewportError::CallbackPanicked { callback: "Renderer_RenderWindow" })
    );
    assert_eq!(runtime.lifecycle.state, RuntimeState::ShuttingDown);
    assert!(!runtime.has_viewports());

    // Destroy is a cleanup entry and stays callable after a terminal callback fault.
    assert!(runtime.lifecycle.is_cleanup_callback_accessible());
    assert!(!record_entry_fault(
        &mut runtime.lifecycle,
        &mut runtime.faults,
        &mut runtime.flags,
        &runtime.windows,
        false,
        AshViewportError::InvalidCallbackArgument { callback: "Renderer_DestroyWindow" }
    ));
    assert_eq!(
        runtime.poll_fault(),
        Some(AshViewportError::InvalidCallbackArgument { callback: "Renderer_DestroyWindow" })
    );
    assert_eq!(runtime.shutdown(), Ok(()));
}

#[test]
fn moving_wrapper_keeps_runtime_owned_storage_stable_and_shutdown_is_once() {
    let mut runtime = Attached::new();
    let mut transitions = Vec::new();
    assert_eq!(
        plan_shutdown(runtime.lifecycle.state, ShutdownAction::Explicit),
        ShutdownStep::Run(ShutdownAction::Explicit)
    );
    runtime.lifecycle.begin_shutdown();
    transitions.push(runtime.lifecycle.state);
    assert_eq!(release_callbacks(&mut runtime.windows, &mut runtime.flags, false), Ok(()));
    runtime.lifecycle.mark_callback_released();
    runtime.lifecycle.mark_detached();
    transitions.push(runtime.lifecycle.state);
    assert_eq!(runtime.lifecycle.settle_renderer_release(true, Ok(()), "renderer shutdown"), Ok(()));
    transitions.push(runtime.lifecycle.state);
    assert_eq!(
        plan_shutdown(runtime.lifecycle.state, ShutdownAction::Explicit),
        ShutdownStep::AlreadyReleased { detach: true }
    );
    assert_eq!(runtime.lifecycle.state, RuntimeState::ResourceDropped);
    assert_eq!(
        transitions,
        vec![RuntimeState::ShuttingDown, RuntimeState::Detached, RuntimeState::ResourceDropped]
    );
}

#[test]
fn dropping_runtime_while_context_is_alive_defers_cleanup_to_context() {
    let mut runtime = Attached::new();
    assert_eq!(
        owner_drop_action(runtime.lifecycle.state, ContextLifecycle::Alive),
        OwnerDropAction::DeferToContext
    );
    assert_eq!(runtime.lifecycle.state, RuntimeState::Attached);
    assert!(runtime.has_viewports());
    assert_eq!(runtime.windows.create_window, CallbackSlot::Ash);

    // The Context's own teardown later releases everything.
    assert_eq!(
        plan_shutdown(runtime.lifecycle.state, ShutdownAction::ContextTeardown),
        ShutdownStep::Run(ShutdownAction::ContextTeardown)
    );
    assert_eq!(runtime.shutdown(), Ok(()));
    assert_eq!(runtime.lifecycle.settle_renderer_release(true, Ok(()), "renderer teardown"), Ok(()));
    assert_eq!(runtime.lifecycle.state, RuntimeState::ResourceDropped);
}

#[test]
fn foreign_renderer_user_data_is_reported_without_taking_or_typing_it() {
    let mut runtime = Attached::new();
    let mut blocks = ViewportDataBlocks::new();
    let foreign: u64 = 0x1234;
    let mut user_data = foreign;
    let owned = blocks.owns(0x100, user_data, &[]);
    let fault = renderer_data_pointer(owned, user_data, "Renderer_DestroyWindow").unwrap_err();
    assert!(record_entry_fault(
        &mut runtime.lifecycle,
        &mut runtime.faults,
        &mut runtime.flags,
        &runtime.windows,
        false,
        fault
    ));
    assert_eq!(runtime.lifecycle.state, RuntimeState::ShuttingDown);
    assert!(!runtime.has_viewports());
    assert_eq!(
        runtime.poll_fault(),
        Some(AshViewportError::RendererUserDataOwnershipLost { callback: "Renderer_DestroyWindow" })
    );
    assert_eq!(blocks.take_from_viewport(0x100, &mut user_data, &[]), None);
    assert_eq!(user_data, foreign);
    assert_eq!(runtime.shutdown(), Ok(()));
}
