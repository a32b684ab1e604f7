//! The contract between a multi-viewport runtime and the Context's platform and renderer
//! callback tables: what must hold before the runtime claims the renderer window callbacks,
//! what it checks on every entry afterwards, and what it withdraws when it lets go.

use crate::context_state::{
    all_ash, first_drifted_slot, first_occupied_slot, owns_any_slot, without_ash,
    RendererWindowSlots, RENDERER_HAS_VIEWPORTS,
};
use crate::viewport_runtime::{
    classify_device_idle, entry_fault_is_terminal, DeviceIdleOutcome, is_terminal_fault, secondary_viewports_result, terminal_recorded, validate_secondary_viewports, AshViewportError,
    CallbackState, RuntimeFaults, RuntimeLifecycle, RuntimeState,
};
use crate::vulkan_values::RESULT_ERROR_DEVICE_LOST;
use crate::viewport_registry::{has_runtime_for, runtime_alive, RuntimeRegistry};
use vstd::prelude::*;

verus! {

/// `ImGuiBackendFlags_PlatformHasViewports`.
pub const PLATFORM_HAS_VIEWPORTS: i32 = 2048;

/// What the platform backend provides for multi-viewport rendering.
#[derive(Clone, Copy, Debug, PartialEq, Eq, Structural)]
pub struct PlatformViewportSupport {
    /// `Platform_CreateWindow` is set.
    pub create_window: bool,
    /// `Platform_DestroyWindow` is set.
    pub destroy_window: bool,
}

/// Whether the platform side supports secondary viewports.
pub open spec fn platform_dependencies_result(
    backend_flags: i32,
    platform: PlatformViewportSupport,
) -> Result<(), AshViewportError> {
    if backend_flags & PLATFORM_HAS_VIEWPORTS != PLATFORM_HAS_VIEWPORTS {
        Err(AshViewportError::PlatformBackendUnavailable)
    } else if !platform.create_window {
        Err(AshViewportError::PlatformCallbackUnavailable { callback: "Platform_CreateWindow" })
    } else if !platform.destroy_window {
        Err(AshViewportError::PlatformCallbackUnavailable { callback: "Platform_DestroyWindow" })
    } else {
        Ok(())
    }
}

/// Checks that the platform backend declares viewports and provides its window callbacks.
pub fn validate_platform_dependencies(backend_flags: i32, platform: &PlatformViewportSupport) -> (r:
    Result<(), AshViewportError>)
    ensures
        r == platform_dependencies_result(backend_flags, *platform),
{
    if backend_flags & PLATFORM_HAS_VIEWPORTS != PLATFORM_HAS_VIEWPORTS {
        return Err(AshViewportError::PlatformBackendUnavailable);
    }
    if !platform.create_window {
        return Err(AshViewportError::PlatformCallbackUnavailable { callback: "Platform_CreateWindow" });
    }
    if !platform.destroy_window {
        return Err(AshViewportError::PlatformCallbackUnavailable { callback: "Platform_DestroyWindow" });
    }
    Ok(())
}

/// Whether a runtime may claim the renderer callbacks of a Context.
pub open spec fn preflight_callbacks_result(
    backend_flags: i32,
    platform: PlatformViewportSupport,
    hooks_available: bool,
    windows: RendererWindowSlots,
    secondary: Seq<(bool, usize)>,
) -> Result<(), AshViewportError> {
    match platform_dependencies_result(backend_flags, platform) {
        Err(e) => Err(e),
        Ok(_) => if backend_flags & RENDERER_HAS_VIEWPORTS != 0 {
            Err(AshViewportError::RendererViewportCapabilityOccupied)
        } else if !hooks_available {
            Err(AshViewportError::AggregateCallbackHooksUnavailable)
        } else {
            match first_occupied_slot(windows) {
                Some(callback) => Err(AshViewportError::RendererCallbackOccupied { callback }),
                None => secondary_viewports_result(secondary),
            }
        },
    }
}

/// Checks, before a runtime attaches, that the platform supports viewports, that no other
/// renderer declares viewport support or holds a window callback, and that no secondary
/// viewport already has renderer data or a platform window (`secondary` lists, per secondary
/// viewport, whether its platform window exists and its renderer data address).
pub fn preflight_callbacks(
    backend_flags: i32,
    platform: &PlatformViewportSupport,
    hooks_available: bool,
    windows: &RendererWindowSlots,
    secondary: &[(bool, usize)],
) -> (r: Result<(), AshViewportError>)
    ensures
        r == preflight_callbacks_result(backend_flags, *platform, hooks_available, *windows, secondary@),
{
    match validate_platform_dependencies(backend_flags, platform) {
        Err(e) => return Err(e),
        Ok(()) => {},
    }
    if backend_flags & RENDERER_HAS_VIEWPORTS != 0 {
        return Err(AshViewportError::RendererViewportCapabilityOccupied);
    }
    if !hooks_available {
        return Err(AshViewportError::AggregateCallbackHooksUnavailable);
    }
    match windows.first_occupied() {
        Some(callback) => return Err(AshViewportError::RendererCallbackOccupied { callback }),
        None => {},
    }
    validate_secondary_viewports(secondary)
}

/// Checks everything an attach needs before anything is published, in order: the renderer's
/// own check (`renderer_check`), the callback preflight, and that no live runtime serves Context
/// `context_id` already. Only the registry's dropped runtimes (`dead`) are forgotten.
pub fn preflight_attachment(
    renderer_check: Result<(), AshViewportError>,
    backend_flags: i32,
    platform: &PlatformViewportSupport,
    hooks_available: bool,
    windows: &RendererWindowSlots,
    secondary: &[(bool, usize)],
    registry: &mut RuntimeRegistry,
    context_id: u64,
    dead: &[u64],
) -> (r: Result<(), AshViewportError>)
    ensures
        renderer_check is Err ==> r == renderer_check && final(registry)@ == old(registry)@,
        renderer_check is Ok && preflight_callbacks_result(
            backend_flags,
            *platform,
            hooks_available,
            *windows,
            secondary@,
        ) is Err ==> r == preflight_callbacks_result(
            backend_flags,
            *platform,
            hooks_available,
            *windows,
            secondary@,
        ) && final(registry)@ == old(registry)@,
        renderer_check is Ok && preflight_callbacks_result(
            backend_flags,
            *platform,
            hooks_available,
            *windows,
            secondary@,
        ) is Ok ==> {
            &&& final(registry)@ == old(registry)@.filter(runtime_alive(dead@))
            &&& r == if has_runtime_for(final(registry)@, context_id) {
                Err::<(), AshViewportError>(AshViewportError::RuntimeAlreadyAttached)
            } else {
                Ok::<(), AshViewportError>(())
            }
        },
{
    match renderer_check {
        Err(e) => return Err(e),
        Ok(()) => {},
    }
    match preflight_callbacks(backend_flags, platform, hooks_available, windows, secondary) {
        Err(e) => return Err(e),
        Ok(()) => {},
    }
    registry.preflight(context_id, dead)
}

/// Claims the renderer window callbacks and declares viewport support.
pub fn claim_callbacks(windows: &mut RendererWindowSlots, backend_flags: &mut i32)
    ensures
        *final(windows) == all_ash(),
        *final(backend_flags) == *old(backend_flags) | RENDERER_HAS_VIEWPORTS,
{
    *windows = RendererWindowSlots {
        create_window: crate::context_state::CallbackSlot::Ash,
        destroy_window: crate::context_state::CallbackSlot::Ash,
        set_window_size: crate::context_state::CallbackSlot::Ash,
        render_window: crate::context_state::CallbackSlot::Ash,
        swap_buffers: crate::context_state::CallbackSlot::Ash,
    };
    *backend_flags = *backend_flags | RENDERER_HAS_VIEWPORTS;
}

/// What a check of an attached runtime's contract finds, given the renderer's own check.
pub open spec fn contract_drift_result(
    backend_flags: i32,
    platform: PlatformViewportSupport,
    windows: RendererWindowSlots,
    renderer_contract: Result<(), AshViewportError>,
) -> Result<(), AshViewportError> {
    if backend_flags & RENDERER_HAS_VIEWPORTS == 0 {
        Err(AshViewportError::RendererViewportCapabilityLost)
    } else {
        match platform_dependencies_result(backend_flags, platform) {
            Err(e) => Err(e),
            Ok(_) => match first_drifted_slot(windows) {
                Some(callback) => Err(AshViewportError::RendererCallbackReplaced { callback }),
                None => renderer_contract,
            },
        }
    }
}

/// Checks an attached runtime's contract: the viewport capability is still declared, the
/// platform still supports viewports, every window callback is still the runtime's, and the
/// renderer's own publication (`renderer_contract`) holds. On a failure the viewport capability
/// is withdrawn when the runtime still owns part of the publication (`owns_core_publication`
/// tells whether the renderer's core publication remains).
pub fn detect_contract_drift(
    backend_flags: &mut i32,
    platform: &PlatformViewportSupport,
    windows: &RendererWindowSlots,
    renderer_contract: Result<(), AshViewportError>,
    owns_core_publication: bool,
) -> (r: Result<(), AshViewportError>)
    ensures
        r == contract_drift_result(*old(backend_flags), *platform, *windows, renderer_contract),
        r is Ok ==> *final(backend_flags) == *old(backend_flags),
        r is Err ==> *final(backend_flags) == if owns_any_slot(*windows) || owns_core_publication {
            *old(backend_flags) & !RENDERER_HAS_VIEWPORTS
        } else {
            *old(backend_flags)
        },
{
    let result = if *backend_flags & RENDERER_HAS_VIEWPORTS == 0 {
        Err(AshViewportError::RendererViewportCapabilityLost)
    } else {
        match validate_platform_dependencies(*backend_flags, platform) {
            Err(e) => Err(e),
            Ok(()) => match windows.first_drift() {
                Some(callback) => Err(AshViewportError::RendererCallbackReplaced { callback }),
                None => renderer_contract,
            },
        }
    };
    if result.is_err() && (windows.owns_any() || owns_core_publication) {
        *backend_flags = *backend_flags & !RENDERER_HAS_VIEWPORTS;
    }
    result
}

/// Whether an attached runtime in `lifecycle` checks its contract before an entry.
pub open spec fn validates_contract(lifecycle: RuntimeLifecycle) -> bool {
    lifecycle.state == RuntimeState::Attached && lifecycle.callback_state == CallbackState::Claimed
}

/// Checks an attached runtime's contract when it holds the callback table, as
/// [`detect_contract_drift`] does; a violation becomes the runtime's terminal fault and starts
/// its shutdown.
pub fn detect_runtime_contract_drift(
    lifecycle: &mut RuntimeLifecycle,
    faults: &mut RuntimeFaults,
    backend_flags: &mut i32,
    platform: &PlatformViewportSupport,
    windows: &RendererWindowSlots,
    renderer_contract: Result<(), AshViewportError>,
    owns_core_publication: bool,
)
    ensures
        !validates_contract(*old(lifecycle)) || contract_drift_result(
            *old(backend_flags),
            *platform,
            *windows,
            renderer_contract,
        ) is Ok ==> {
            &&& *final(lifecycle) == *old(lifecycle)
            &&& final(faults).queued() == old(faults).queued()
            &&& final(faults).terminal_seen() == old(faults).terminal_seen()
            &&& *final(backend_flags) == *old(backend_flags)
        },
        validates_contract(*old(lifecycle)) ==> match contract_drift_result(
            *old(backend_flags),
            *platform,
            *windows,
            renderer_contract,
        ) {
            Ok(_) => true,
            Err(fault) => {
                &&& *final(lifecycle) == (RuntimeLifecycle {
                    state: RuntimeState::ShuttingDown,
                    ..*old(lifecycle)
                })
                &&& final(faults).terminal_seen()
                &&& final(faults).queued() == terminal_recorded(
                    old(faults).queued(),
                    old(faults).terminal_seen(),
                    fault,
                )
                &&& *final(backend_flags) == if owns_any_slot(*windows) || owns_core_publication {
                    *old(backend_flags) & !RENDERER_HAS_VIEWPORTS
                } else {
                    *old(backend_flags)
                }
            },
        },
{
    if !lifecycle.should_validate_runtime_contract() {
        return;
    }
    match detect_contract_drift(backend_flags, platform, windows, renderer_contract, owns_core_publication) {
        Ok(()) => {},
        Err(fault) => {
            faults.record_terminal(fault);
            lifecycle.begin_shutdown();
        },
    }
}

/// Checks the contract, then takes the oldest waiting fault: the report an entry into the
/// runtime gives first.
pub fn detect_and_take_fault(
    lifecycle: &mut RuntimeLifecycle,
    faults: &mut RuntimeFaults,
    backend_flags: &mut i32,
    platform: &PlatformViewportSupport,
    windows: &RendererWindowSlots,
    renderer_contract: Result<(), AshViewportError>,
    owns_core_publication: bool,
) -> (r: Option<AshViewportError>)
    ensures
        ({
            let drift = contract_drift_result(*old(backend_flags), *platform, *windows, renderer_contract);
            let queued = if validates_contract(*old(lifecycle)) && drift is Err {
                terminal_recorded(old(faults).queued(), old(faults).terminal_seen(), drift->Err_0)
            } else {
                old(faults).queued()
            };
            &&& r == if queued.len() > 0 {
                Some(queued[0])
            } else {
                None::<AshViewportError>
            }
            &&& final(faults).queued() == if queued.len() > 0 {
                queued.drop_first()
            } else {
                queued
            }
            &&& *final(lifecycle) == if validates_contract(*old(lifecycle)) && drift is Err {
                RuntimeLifecycle { state: RuntimeState::ShuttingDown, ..*old(lifecycle) }
            } else {
                *old(lifecycle)
            }
        }),
{
    detect_runtime_contract_drift(
        lifecycle,
        faults,
        backend_flags,
        platform,
        windows,
        renderer_contract,
        owns_core_publication,
    );
    faults.take_next()
}

/// The backend flags after withdrawing the viewport capability when the runtime still owns part
/// of the publication.
pub open spec fn revoked_flags(backend_flags: i32, windows: RendererWindowSlots, owns_core_publication: bool) -> i32 {
    if owns_any_slot(windows) || owns_core_publication {
        backend_flags & !RENDERER_HAS_VIEWPORTS
    } else {
        backend_flags
    }
}

/// Withdraws the viewport capability when the runtime still owns a window callback or the
/// renderer's core publication; a capability that another backend took over stays.
pub fn revoke_viewport_capability_if_owned(
    backend_flags: &mut i32,
    windows: &RendererWindowSlots,
    owns_core_publication: bool,
)
    ensures
        *final(backend_flags) == revoked_flags(*old(backend_flags), *windows, owns_core_publication),
{
    if windows.owns_any() || owns_core_publication {
        *backend_flags = *backend_flags & !RENDERER_HAS_VIEWPORTS;
    }
}

/// Records a fault that ends the runtime: the capability is withdrawn where still owned, the
/// fault is queued unless a terminal fault came before, and the shutdown starts.
pub fn record_runtime_contract_fault(
    lifecycle: &mut RuntimeLifecycle,
    faults: &mut RuntimeFaults,
    backend_flags: &mut i32,
    windows: &RendererWindowSlots,
    owns_core_publication: bool,
    fault: AshViewportError,
)
    ensures
        *final(backend_flags) == revoked_flags(*old(backend_flags), *windows, owns_core_publication),
        final(faults).terminal_seen(),
        final(faults).queued() == terminal_recorded(
            old(faults).queued(),
            old(faults).terminal_seen(),
            fault,
        ),
        final(lifecycle).callback_state == old(lifecycle).callback_state,
        (old(lifecycle).state == RuntimeState::Constructing || old(lifecycle).state
            == RuntimeState::Attached) ==> final(lifecycle).state == RuntimeState::ShuttingDown,
        !(old(lifecycle).state == RuntimeState::Constructing || old(lifecycle).state
            == RuntimeState::Attached) ==> final(lifecycle).state == old(lifecycle).state,
{
    revoke_viewport_capability_if_owned(backend_flags, windows, owns_core_publication);
    faults.record_terminal(fault);
    lifecycle.begin_shutdown();
}

/// Records a fault raised inside a native callback: a terminal one through
/// [`record_runtime_contract_fault`], any other one queued as is. Returns whether it was
/// terminal.
pub fn record_entry_fault(
    lifecycle: &mut RuntimeLifecycle,
    faults: &mut RuntimeFaults,
    backend_flags: &mut i32,
    windows: &RendererWindowSlots,
    owns_core_publication: bool,
    fault: AshViewportError,
) -> (r: bool)
    ensures
        r == is_terminal_fault(fault),
        r ==> {
            &&& *final(backend_flags) == revoked_flags(*old(backend_flags), *windows, owns_core_publication)
            &&& final(faults).terminal_seen()
            &&& final(faults).queued() == terminal_recorded(
                old(faults).queued(),
                old(faults).terminal_seen(),
                fault,
            )
            &&& final(lifecycle).callback_state == old(lifecycle).callback_state
            &&& (old(lifecycle).state == RuntimeState::Constructing || old(lifecycle).state
                == RuntimeState::Attached) ==> final(lifecycle).state == RuntimeState::ShuttingDown
            &&& !(old(lifecycle).state == RuntimeState::Constructing || old(lifecycle).state
                == RuntimeState::Attached) ==> final(lifecycle).state == old(lifecycle).state
        },
        !r ==> {
            &&& *final(backend_flags) == *old(backend_flags)
            &&& final(faults).terminal_seen() == old(faults).terminal_seen()
            &&& final(faults).queued() == old(faults).queued().push(fault)
            &&& *final(lifecycle) == *old(lifecycle)
        },
{
    if entry_fault_is_terminal(&fault) {
        record_runtime_contract_fault(
            lifecycle,
            faults,
            backend_flags,
            windows,
            owns_core_publication,
            fault,
        );
        true
    } else {
        faults.record_non_terminal(fault);
        false
    }
}

/// Handles the result `idle` of a device wait made for `operation`: device loss is recorded as
/// the runtime's terminal fault but reported as an outcome, so that cleanup can go on; any other
/// failure is an error that leaves the runtime as it was.
pub fn device_idle_outcome(
    lifecycle: &mut RuntimeLifecycle,
    faults: &mut RuntimeFaults,
    backend_flags: &mut i32,
    windows: &RendererWindowSlots,
    owns_core_publication: bool,
    idle: Result<(), i32>,
    operation: &'static str,
) -> (r: Result<DeviceIdleOutcome, AshViewportError>)
    ensures
        idle is Ok ==> {
            &&& r == Ok::<DeviceIdleOutcome, AshViewportError>(DeviceIdleOutcome::Complete)
            &&& *final(lifecycle) == *old(lifecycle)
            &&& final(faults).queued() == old(faults).queued()
            &&& final(faults).terminal_seen() == old(faults).terminal_seen()
            &&& *final(backend_flags) == *old(backend_flags)
        },
        idle matches Err(code) ==> code != RESULT_ERROR_DEVICE_LOST ==> {
            &&& r == Err::<DeviceIdleOutcome, AshViewportError>(
                AshViewportError::DeviceCompletionFailed { operation, source: code },
            )
            &&& *final(lifecycle) == *old(lifecycle)
            &&& final(faults).queued() == old(faults).queued()
            &&& final(faults).terminal_seen() == old(faults).terminal_seen()
            &&& *final(backend_flags) == *old(backend_flags)
        },
        idle == Err::<(), i32>(RESULT_ERROR_DEVICE_LOST) ==> {
            &&& r == Ok::<DeviceIdleOutcome, AshViewportError>(DeviceIdleOutcome::DeviceLost)
            &&& *final(backend_flags) == revoked_flags(*old(backend_flags), *windows, owns_core_publication)
            &&& final(faults).terminal_seen()
            &&& final(faults).queued() == terminal_recorded(
                old(faults).queued(),
                old(faults).terminal_seen(),
                AshViewportError::DeviceLost { operation },
            )
            &&& final(lifecycle).callback_state == old(lifecycle).callback_state
            &&& (old(lifecycle).state == RuntimeState::Constructing || old(lifecycle).state
                == RuntimeState::Attached) ==> final(lifecycle).state == RuntimeState::ShuttingDown
            &&& !(old(lifecycle).state == RuntimeState::Constructing || old(lifecycle).state
                == RuntimeState::Attached) ==> final(lifecycle).state == old(lifecycle).state
        },
{
    match classify_device_idle(idle) {
        Ok(DeviceIdleOutcome::Complete) => Ok(DeviceIdleOutcome::Complete),
        Ok(DeviceIdleOutcome::DeviceLost) => {
            record_entry_fault(
                lifecycle,
                faults,
                backend_flags,
                windows,
                owns_core_publication,
                AshViewportError::DeviceLost { operation },
            );
            Ok(DeviceIdleOutcome::DeviceLost)
        },
        Err(source) => Err(AshViewportError::DeviceCompletionFailed { operation, source }),
    }
}

/// Lets go of the renderer window callbacks: each slot still holding the runtime's callback is
/// emptied, and the viewport capability is withdrawn when the runtime still owned part of the
/// publication. A slot that another backend replaced is reported.
pub fn release_callbacks(
    windows: &mut RendererWindowSlots,
    backend_flags: &mut i32,
    owns_core_publication: bool,
) -> (r: Result<(), AshViewportError>)
    ensures
        *final(windows) == without_ash(*old(windows)),
        *final(backend_flags) == if owns_any_slot(*old(windows)) || owns_core_publication {
            *old(backend_flags) & !RENDERER_HAS_VIEWPORTS
        } else {
            *old(backend_flags)
        },
        r == match first_drifted_slot(*old(windows)) {
            Some(callback) => Err::<(), AshViewportError>(
                AshViewportError::RendererCallbackReplaced { callback },
            ),
            None => Ok::<(), AshViewportError>(()),
        },
{
    let drift = windows.first_drift();
    let owns = windows.owns_any() || owns_core_publication;
    windows.clear_ash();
    if owns {
        *backend_flags = *backend_flags & !RENDERER_HAS_VIEWPORTS;
    }
    match drift {
        Some(callback) => Err(AshViewportError::RendererCallbackReplaced { callback }),
        None => Ok(()),
    }
}

/// A runtime that claimed the callbacks of a Context that passed preflight finds its contract
/// intact, and releasing them afterwards restores the callback table and the viewport flag.
pub proof fn law_claim_then_release_restores(
    backend_flags: i32,
    platform: PlatformViewportSupport,
    windows: RendererWindowSlots,
    secondary: Seq<(bool, usize)>,
)
    requires
        preflight_callbacks_result(backend_flags, platform, true, windows, secondary) is Ok,
    ensures
        contract_drift_result(
            backend_flags | RENDERER_HAS_VIEWPORTS,
            platform,
            all_ash(),
            Ok::<(), AshViewportError>(()),
        ) is Ok,
        without_ash(all_ash()) == windows,
        (backend_flags | RENDERER_HAS_VIEWPORTS) & !RENDERER_HAS_VIEWPORTS == backend_flags,
{
    assert(backend_flags & RENDERER_HAS_VIEWPORTS == 0 ==> (backend_flags | RENDERER_HAS_VIEWPORTS)
        & !RENDERER_HAS_VIEWPORTS == backend_flags && (backend_flags | RENDERER_HAS_VIEWPORTS)
        & RENDERER_HAS_VIEWPORTS != 0) by (bit_vector);
    assert(backend_flags & PLATFORM_HAS_VIEWPORTS == PLATFORM_HAS_VIEWPORTS ==> (backend_flags
        | RENDERER_HAS_VIEWPORTS) & PLATFORM_HAS_VIEWPORTS == PLATFORM_HAS_VIEWPORTS) by (bit_vector);
}

} // verus!
