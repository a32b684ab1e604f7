use dear_imgui_ash::viewport_registry::{
    renderer_data_pointer, FailedViewports, RegisteredRuntime, RuntimeRegistry, ViewportDataBlocks,
};
use dear_imgui_ash::viewport_runtime::AshViewportError;

fn runtime(context_raw: u64, context_id: u64, control: u64) -> RegisteredRuntime {
    RegisteredRuntime { context_raw, context_id, control }
}

#[test]
fn one_live_runtime_per_context() {
    let mut registry = RuntimeRegistry::new();
    assert_eq!(registry.preflight(1, &[]), Ok(()));
    registry.register(runtime(0x100, 1, 10), &[]);
    assert_eq!(registry.preflight(1, &[]), Err(AshViewportError::RuntimeAlreadyAttached));
    assert_eq!(registry.preflight(2, &[]), Ok(()));
    // A dropped runtime no longer blocks its Context.
    assert_eq!(registry.preflight(1, &[10]), Ok(()));
    registry.register(runtime(0x100, 1, 11), &[]);
    registry.unregister(1);
    assert_eq!(registry.preflight(1, &[]), Ok(()));
}

#[test]
fn callbacks_find_the_runtime_of_the_current_context() {
    let mut registry = RuntimeRegistry::new();
    registry.register(runtime(0x100, 1, 10), &[]);
    registry.register(runtime(0x200, 2, 20), &[]);
    assert_eq!(registry.runtime_for_context(0x100, &[]), Some(10));
    assert_eq!(registry.runtime_for_context(0x200, &[]), Some(20));
    assert_eq!(registry.runtime_for_context(0, &[]), None);
    assert_eq!(registry.runtime_for_context(0x300, &[]), None);
    assert_eq!(registry.runtime_for_context(0x200, &[20]), None);
    assert_eq!(registry.runtime_for_context(0x100, &[]), Some(10));
}

#[test]
fn viewport_blocks_are_registered_once_per_context() {
    let mut blocks = ViewportDataBlocks::new();
    assert_eq!(
        blocks.register(1, 0x100, 0, &[]),
        Err(AshViewportError::InvalidCallbackArgument { callback: "register RendererUserData" })
    );
    assert_eq!(
        blocks.register(1, 0, 0x40, &[]),
        Err(AshViewportError::BoundContextMismatch { expected: 1 })
    );
    assert_eq!(blocks.count(1), 0);
    assert_eq!(blocks.register(1, 0x100, 0x40, &[]), Ok(()));
    assert_eq!(blocks.register(1, 0x100, 0x40, &[]), Ok(()));
    assert_eq!(blocks.register(1, 0x100, 0x80, &[]), Ok(()));
    assert_eq!(blocks.register(2, 0x200, 0xc0, &[]), Ok(()));
    assert_eq!(blocks.count(1), 2);
    assert_eq!(blocks.count(2), 1);
    // Registering after Context 1 was destroyed forgets its blocks.
    assert_eq!(blocks.register(2, 0x200, 0x100, &[1]), Ok(()));
    assert_eq!(blocks.count(1), 0);
    assert_eq!(blocks.count(2), 2);
}

#[test]
fn foreign_renderer_user_data_is_never_typed_or_taken() {
    let mut blocks = ViewportDataBlocks::new();
    let foreign: u64 = 0x1234;
    assert!(!blocks.owns(0x100, foreign, &[]));
    let mut user_data = foreign;
    assert_eq!(blocks.take_from_viewport(0x100, &mut user_data, &[]), None);
    assert_eq!(user_data, foreign);
}

#[test]
fn own_viewport_data_is_taken_once() {
    let mut blocks = ViewportDataBlocks::new();
    blocks.register(1, 0x100, 0x40, &[]).unwrap();
    assert!(blocks.owns(0x100, 0x40, &[]));
    assert!(!blocks.owns(0x200, 0x40, &[]));
    assert!(!blocks.owns(0x100, 0x40, &[1]));
    let mut user_data: u64 = 0x40;
    assert_eq!(blocks.take_from_viewport(0x100, &mut user_data, &[]), Some(0x40));
    assert_eq!(user_data, 0);
    assert!(!blocks.owns(0x100, 0x40, &[]));
}

#[test]
fn shutdown_takes_every_block_of_its_context() {
    let mut blocks = ViewportDataBlocks::new();
    blocks.register(1, 0x100, 0x40, &[]).unwrap();
    blocks.register(2, 0x200, 0x50, &[]).unwrap();
    blocks.register(1, 0x100, 0x60, &[]).unwrap();
    assert_eq!(blocks.take_for_context(1), vec![0x40, 0x60]);
    assert_eq!(blocks.count(1), 0);
    assert_eq!(blocks.count(2), 1);
    blocks.unregister(0x50);
    assert_eq!(blocks.count(2), 0);
}

#[test]
fn callback_viewport_data_is_owned_null_or_lost() {
    assert_eq!(renderer_data_pointer(true, 0x40, "Renderer_RenderWindow"), Ok(0x40));
    assert_eq!(
        renderer_data_pointer(false, 0, "Renderer_RenderWindow"),
        Err(AshViewportError::InvalidCallbackArgument { callback: "Renderer_RenderWindow" })
    );
    assert_eq!(
        renderer_data_pointer(false, 0x1234, "Renderer_DestroyWindow"),
        Err(AshViewportError::RendererUserDataOwnershipLost { callback: "Renderer_DestroyWindow" })
    );
}

#[test]
fn renderer_create_failure_reasserts_close_until_destroy_callback() {
    let mut failed = FailedViewports::new();
    // Renderer_CreateWindow failed for viewport 0x11: its close is requested.
    failed.mark(0x11);
    // Every later runtime entry asks it to close again.
    assert_eq!(failed.reassert(&[]), vec![0x11]);
    assert_eq!(failed.reassert(&[]), vec![0x11]);
    // Renderer_DestroyWindow forgets it; nothing is reasserted any more.
    failed.clear(0x11);
    assert_eq!(failed.reassert(&[]), Vec::<u64>::new());
}

#[test]
fn failed_viewports_unknown_to_dear_imgui_are_forgotten() {
    let mut failed = FailedViewports::new();
    failed.mark(1);
    failed.mark(2);
    failed.mark(1);
    failed.mark(3);
    assert_eq!(failed.reassert(&[2]), vec![1, 3]);
    assert_eq!(failed.reassert(&[]), vec![1, 3]);
    failed.clear_all();
    assert_eq!(failed.reassert(&[]), Vec::<u64>::new());
}
