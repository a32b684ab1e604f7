use dear_imgui_ash::callback_registry::{
    disable, enable, shutdown_multi_viewport_support, try_install_renderer_callbacks,
    CallbackOwnershipError, RendererRegistry, ViewportDataRegistry,
};
use dear_imgui_ash::context_state::{CallbackSlot, RendererWindowSlots};

fn all_ash() -> RendererWindowSlots {
    RendererWindowSlots {
        create_window: CallbackSlot::Ash,
        destroy_window: CallbackSlot::Ash,
        set_window_size: CallbackSlot::Ash,
        render_window: CallbackSlot::Ash,
        swap_buffers: CallbackSlot::Ash,
    }
}

#[test]
fn renderer_callbacks_preserve_platform_render_slots() {
    let mut registry: RendererRegistry<u32> = RendererRegistry::new();
    let mut slots = RendererWindowSlots::empty();
    assert_eq!(try_install_renderer_callbacks(&mut slots, false, true), Ok(()));
    assert_eq!(slots, all_ash());
    disable(&mut registry, &mut slots, 1);
    assert_eq!(slots, RendererWindowSlots::empty());
}

#[test]
fn foreign_renderer_callbacks_reject_install_without_mutation() {
    let mut slots = RendererWindowSlots::empty();
    slots.set_window_size = CallbackSlot::Foreign;
    let before = slots;
    assert_eq!(
        try_install_renderer_callbacks(&mut slots, true, true),
        Err(CallbackOwnershipError::RendererCallbacksOccupied)
    );
    assert_eq!(slots, before);
}

#[test]
fn own_callbacks_are_accepted_only_with_a_registered_renderer() {
    let mut slots = all_ash();
    assert_eq!(
        try_install_renderer_callbacks(&mut slots, false, true),
        Err(CallbackOwnershipError::RendererCallbacksOccupied)
    );
    assert_eq!(try_install_renderer_callbacks(&mut slots, true, false), Ok(()));
    let mut empty = RendererWindowSlots::empty();
    assert_eq!(
        try_install_renderer_callbacks(&mut empty, false, false),
        Err(CallbackOwnershipError::AggregateCallbackHooksUnavailable)
    );
    assert_eq!(empty, RendererWindowSlots::empty());
}

#[test]
fn enable_requires_the_platform_surface_callback_and_records_the_renderer() {
    let mut registry: RendererRegistry<u32> = RendererRegistry::new();
    let mut slots = RendererWindowSlots::empty();
    assert_eq!(
        enable(&mut registry, &mut slots, 10, 20, false, true, 7),
        Err(CallbackOwnershipError::PlatformCreateVkSurfaceUnavailable)
    );
    assert!(!registry.has_state_for_context(10));
    assert_eq!(enable(&mut registry, &mut slots, 10, 20, true, true, 7), Ok(()));
    assert!(registry.has_state_for_context(10));
    assert_eq!(registry.global_for(10), Some(&7));
    assert_eq!(enable(&mut registry, &mut slots, 10, 21, true, true, 8), Ok(()));
    assert_eq!(registry.global_for(10), Some(&8));
    shutdown_multi_viewport_support(&mut registry, &mut slots, 10);
    assert!(!registry.has_state_for_context(10));
    assert_eq!(slots, RendererWindowSlots::empty());
}

#[test]
fn renderer_is_lent_to_one_callback_at_a_time() {
    let mut registry: RendererRegistry<u32> = RendererRegistry::new();
    registry.upsert(1, 100, None);
    registry.upsert(2, 0, None);
    registry.upsert(0, 300, None);
    assert!(!registry.has_state_for_context(0));
    assert_eq!(registry.borrow(1), Some(100));
    assert_eq!(registry.borrow(1), None);
    registry.release(1, 999);
    assert_eq!(registry.borrow(1), None);
    registry.release(1, 100);
    assert_eq!(registry.borrow(1), Some(100));
    assert_eq!(registry.borrow(2), None);
    assert_eq!(registry.borrow(3), None);
    assert_eq!(registry.global_for(1), None);
}

#[test]
fn removal_by_context_and_by_renderer() {
    let mut registry: RendererRegistry<u32> = RendererRegistry::new();
    registry.upsert(1, 100, Some(1));
    registry.upsert(2, 100, Some(2));
    registry.upsert(3, 200, Some(3));
    registry.remove_for_context(3);
    assert!(!registry.has_state_for_context(3));
    assert!(registry.has_state_for_context(1));
    registry.remove_for_renderer(100);
    assert!(!registry.has_state_for_context(1));
    assert!(!registry.has_state_for_context(2));
}

#[test]
fn viewport_data_blocks_are_registered_once_and_null_never() {
    let mut data = ViewportDataRegistry::new();
    data.register(0);
    assert!(!data.contains(0));
    data.register(0x40);
    data.register(0x40);
    assert!(data.contains(0x40));
    data.unregister(0x40);
    assert!(!data.contains(0x40));
}

#[test]
fn existing_ash_callback_table_can_rebind_renderer_state() {
    let mut registry: RendererRegistry<u32> = RendererRegistry::new();
    let mut slots = RendererWindowSlots::empty();
    assert_eq!(try_install_renderer_callbacks(&mut slots, registry.has_state_for_context(1), true), Ok(()));
    registry.upsert(1, 100, None);
    assert_eq!(try_install_renderer_callbacks(&mut slots, registry.has_state_for_context(1), true), Ok(()));
    assert_eq!(slots, all_ash());
    disable(&mut registry, &mut slots, 1);
    assert!(!registry.has_state_for_context(1));
}

#[test]
fn disable_preserves_renderer_callbacks_replaced_by_another_backend() {
    let mut registry: RendererRegistry<u32> = RendererRegistry::new();
    let mut slots = RendererWindowSlots::empty();
    assert_eq!(try_install_renderer_callbacks(&mut slots, false, true), Ok(()));
    registry.upsert(1, 100, None);
    let foreign = RendererWindowSlots {
        create_window: CallbackSlot::Foreign,
        destroy_window: CallbackSlot::Foreign,
        set_window_size: CallbackSlot::Foreign,
        render_window: CallbackSlot::Foreign,
        swap_buffers: CallbackSlot::Foreign,
    };
    slots = foreign;
    disable(&mut registry, &mut slots, 1);
    assert!(!registry.has_state_for_context(1));
    assert_eq!(slots, foreign);
}

#[test]
fn renderer_state_is_context_local() {
    let mut registry: RendererRegistry<u32> = RendererRegistry::new();
    registry.upsert(0xa, 0x100, None);
    registry.upsert(0xb, 0x200, None);
    assert_eq!(registry.borrow(0xa), Some(0x100));
    registry.release(0xa, 0x100);
    assert_eq!(registry.borrow(0xb), Some(0x200));
    registry.release(0xb, 0x200);
    registry.remove_for_context(0xb);
    assert_eq!(registry.borrow(0xb), None);
    assert!(registry.borrow(0xa).is_some());
    registry.release(0xa, 0x100);
    registry.remove_for_context(0xa);
    assert!(!registry.has_state_for_context(0xa));
}

#[test]
fn clear_for_drop_removes_renderer_state() {
    let mut registry: RendererRegistry<u32> = RendererRegistry::new();
    registry.upsert(1, 0x100, None);
    assert!(registry.borrow(1).is_some());
    registry.release(1, 0x100);
    registry.remove_for_renderer(0x100);
    assert!(registry.borrow(1).is_none());
}

#[test]
fn take_viewport_data_ignores_foreign_renderer_user_data() {
    let mut data = ViewportDataRegistry::new();
    let mut user_data: u64 = 0x1234;
    assert!(!data.take(&mut user_data));
    assert_eq!(user_data, 0x1234);

    data.register(0x40);
    let mut own: u64 = 0x40;
    assert!(data.take(&mut own));
    assert_eq!(own, 0);
    assert!(!data.contains(0x40));
}

#[test]
fn viewport_user_data_mut_ignores_unregistered_renderer_user_data() {
    let data = ViewportDataRegistry::new();
    let user_data: u64 = 0x1234;
    assert!(!data.contains(user_data));
}

#[test]
fn refused_enable_reports_why_the_install_was_refused() {
    let mut registry: RendererRegistry<u32> = RendererRegistry::new();
    let mut empty = RendererWindowSlots::empty();
    assert_eq!(
        enable(&mut registry, &mut empty, 10, 20, true, false, 7),
        Err(CallbackOwnershipError::AggregateCallbackHooksUnavailable)
    );
    assert_eq!(empty, RendererWindowSlots::empty());
    let mut foreign = RendererWindowSlots { create_window: CallbackSlot::Foreign, ..RendererWindowSlots::empty() };
    assert_eq!(
        enable(&mut registry, &mut foreign, 10, 20, true, true, 7),
        Err(CallbackOwnershipError::RendererCallbacksOccupied)
    );
    assert!(!registry.has_state_for_context(10));
}
