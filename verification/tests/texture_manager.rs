use dear_imgui_ash::retirement::QueueIdSource;
use dear_imgui_ash::allocator::Memory;
use dear_imgui_ash::error::RendererError;
use dear_imgui_ash::pixels::{TextureDataView, TextureFormat, TextureRect};
use dear_imgui_ash::retirement::RetirementRequest;
use dear_imgui_ash::texture_manager::{TextureDataWrite, TextureUpdateResult};
use dear_imgui_ash::texture_manager::{
    bytes_equal, LegacyTexturePlan, ManagedCreatePlan, ManagedUpdatePlan, ManagedVulkanTexture,
    TextureManager, TextureStatus, TextureUploadRect, VulkanTexture,
};

fn vulkan_texture(image: u64, descriptor_set: u64) -> VulkanTexture {
    VulkanTexture {
        image,
        image_mem: Memory::Device(image + 100),
        image_view: image + 200,
        sampler: image + 300,
        descriptor_set,
        width: 1,
        height: 1,
    }
}

fn managed_texture(texture_id: u64, image: u64, descriptor_set: u64, pixel: u8) -> ManagedVulkanTexture {
    ManagedVulkanTexture { texture_id, texture: vulkan_texture(image, descriptor_set), rgba: vec![pixel; 4] }
}

#[test]
fn superseded_then_destroyed_texture_preserves_mapping_until_final_completion() {
    let snapshot_id = 7_u64;
    let mut manager: TextureManager<u64> = TextureManager::new(&mut QueueIdSource::new());
    let texture_id = manager.allocate_id();
    manager.install_managed_texture(snapshot_id, managed_texture(texture_id, 1, 11, 1));
    assert_eq!(manager.get_descriptor_set(texture_id), Some(11));

    let reservation = manager.reserve_superseded_retirement().unwrap();
    let superseded_batch = reservation.batch();
    assert_eq!(
        manager.install_managed_replacement(
            snapshot_id,
            managed_texture(texture_id, 2, 22, 2),
            reservation,
        ),
        texture_id
    );
    assert_eq!(manager.get_descriptor_set(texture_id), Some(22));

    let superseded = manager.complete_managed_retirements(superseded_batch).unwrap();
    assert_eq!(superseded.len(), 1);
    assert_eq!(superseded[0].texture.image, 1);
    assert_eq!(manager.get_descriptor_set(texture_id), Some(22));

    let RetirementRequest::Queued(destroy_batch) = manager
        .request_managed_retirement(snapshot_id)
        .expect("active replacement should enter destroy retirement")
    else {
        panic!("active replacement was acknowledged before retirement");
    };
    assert_eq!(manager.get_descriptor_set(texture_id), Some(22));
    assert_eq!(
        manager.request_managed_retirement(snapshot_id),
        Ok(RetirementRequest::Pending)
    );

    let destroyed = manager.complete_managed_retirements(destroy_batch).unwrap();
    assert_eq!(destroyed.len(), 1);
    assert_eq!(destroyed[0].texture.image, 2);
    assert_eq!(manager.get_descriptor_set(texture_id), None);
    assert_eq!(manager.pending_texture_retirement(), None);
    assert_eq!(
        manager.request_managed_retirement(snapshot_id),
        Ok(RetirementRequest::Retired)
    );
}

#[test]
fn destroy_is_acknowledged_only_after_its_image_is_released() {
    let mut manager: TextureManager<u64> = TextureManager::new(&mut QueueIdSource::new());
    let id = manager.allocate_id();
    manager.install_managed_texture(3, managed_texture(id, 5, 55, 9));
    assert_eq!(manager.retire_for_destroy(3), Ok(false));
    assert_eq!(manager.retire_for_destroy(3), Ok(false));
    let batch = manager.pending_texture_retirement().unwrap();
    assert_eq!(manager.get_descriptor_set(id), Some(55));
    let released = manager.complete_managed_retirements(batch).unwrap();
    assert_eq!(released.len(), 1);
    assert_eq!(manager.retire_for_destroy(3), Ok(true));
    assert_eq!(manager.get_descriptor_set(id), None);
}

#[test]
fn ids_start_at_one_and_follow_each_other() {
    let mut manager: TextureManager<u64> = TextureManager::new(&mut QueueIdSource::new());
    assert_eq!(manager.allocate_id(), 1);
    assert_eq!(manager.register_external_descriptor_set(40), 2);
    assert_eq!(manager.register_external_texture(41, 42, 43), 3);
    assert_eq!(manager.allocate_id(), 4);
}

#[test]
fn external_bindings_resolve_and_update_only_when_owned() {
    let mut manager: TextureManager<u64> = TextureManager::new(&mut QueueIdSource::new());
    let borrowed = manager.register_external_descriptor_set(40);
    let owned = manager.register_external_texture(41, 42, 43);
    assert_eq!(manager.get_descriptor_set(borrowed), Some(40));
    assert_eq!(manager.get_descriptor_set(owned), Some(41));

    assert_eq!(manager.set_external_view(borrowed, 99), None);
    assert_eq!(manager.set_external_view(owned, 99), Some((41, 43)));
    assert_eq!(manager.set_external_sampler(owned, 77), Some((41, 99)));
    assert_eq!(manager.set_external_sampler(12345, 77), None);

    assert_eq!(manager.remove_external(borrowed), None);
    assert!(!manager.has_external(borrowed));
    assert_eq!(manager.remove_external(owned), Some(41));
    assert_eq!(manager.get_descriptor_set(owned), None);
}

#[test]
fn legacy_textures_take_precedence_and_can_be_replaced() {
    let mut manager: TextureManager<u64> = TextureManager::new(&mut QueueIdSource::new());
    let id = manager.allocate_id();
    assert_eq!(manager.install_texture(id, vulkan_texture(1, 10)), None);
    assert_eq!(manager.get_descriptor_set(id), Some(10));
    assert_eq!(manager.install_texture(id, vulkan_texture(2, 20)), Some(vulkan_texture(1, 10)));
    assert_eq!(manager.texture(id), Some(vulkan_texture(2, 20)));
    assert_eq!(manager.remove_texture(id), Some(vulkan_texture(2, 20)));
    assert_eq!(manager.get_descriptor_set(id), None);
}

fn rgba_data(width: u32, height: u32, fill: u8) -> TextureDataView {
    TextureDataView {
        format: TextureFormat::RGBA32,
        width,
        height,
        pixels: Some(vec![fill; (width * height * 4) as usize]),
    }
}

#[test]
fn legacy_create_allocates_an_id_and_reads_all_pixels() {
    let mut manager: TextureManager<u64> = TextureManager::new(&mut QueueIdSource::new());
    let rect = TextureRect { x: 0, y: 0, w: 0, h: 0 };
    match manager.plan_legacy_update(TextureStatus::WantCreate, 0, &rgba_data(2, 1, 7), rect) {
        LegacyTexturePlan::Create { id, replacing_existing, width, height, pixels } => {
            assert_eq!(id, 1);
            assert!(!replacing_existing);
            assert_eq!((width, height), (2, 1));
            assert_eq!(pixels, Some(vec![7; 8]));
        },
        other => panic!("unexpected plan {other:?}"),
    }
    match manager.plan_legacy_update(TextureStatus::WantCreate, 0, &rgba_data(0, 1, 7), rect) {
        LegacyTexturePlan::Create { id, pixels, .. } => {
            assert_eq!(id, 2);
            assert_eq!(pixels, None);
        },
        other => panic!("unexpected plan {other:?}"),
    }
}

#[test]
fn legacy_update_uploads_the_clipped_rectangle() {
    let mut manager: TextureManager<u64> = TextureManager::new(&mut QueueIdSource::new());
    let id = manager.allocate_id();
    let mut tex = vulkan_texture(9, 90);
    tex.width = 4;
    tex.height = 4;
    manager.install_texture(id, tex);
    let data = rgba_data(4, 4, 3);
    match manager.plan_legacy_update(TextureStatus::WantUpdates, id, &data, TextureRect { x: 2, y: 3, w: 5, h: 5 }) {
        LegacyTexturePlan::Update { id: target, image, x, y, width, height, pixels } => {
            assert_eq!(target, id);
            assert_eq!(image, 9);
            assert_eq!((x, y, width, height), (2, 3, 2, 1));
            assert_eq!(pixels, Some(vec![3; 8]));
        },
        other => panic!("unexpected plan {other:?}"),
    }
    assert!(matches!(
        manager.plan_legacy_update(TextureStatus::WantUpdates, id, &data, TextureRect { x: 4, y: 0, w: 1, h: 1 }),
        LegacyTexturePlan::Unchanged
    ));
    assert!(matches!(
        manager.plan_legacy_update(TextureStatus::WantDestroy, id, &data, TextureRect { x: 0, y: 0, w: 0, h: 0 }),
        LegacyTexturePlan::Destroy { id: 1, present: true }
    ));
    assert!(matches!(
        manager.plan_legacy_update(TextureStatus::UpToDate, id, &data, TextureRect { x: 0, y: 0, w: 0, h: 0 }),
        LegacyTexturePlan::NoAction
    ));
    match manager.plan_legacy_update(TextureStatus::WantUpdates, 77, &data, TextureRect { x: 0, y: 0, w: 1, h: 1 }) {
        LegacyTexturePlan::Create { id: created, replacing_existing, .. } => {
            assert_eq!(created, 2);
            assert!(!replacing_existing);
        },
        other => panic!("unexpected plan {other:?}"),
    }
}

#[test]
fn managed_create_is_ready_replaced_or_created() {
    let mut manager: TextureManager<u64> = TextureManager::new(&mut QueueIdSource::new());
    let pixels = [1_u8, 2, 3, 4];
    let plan = manager.plan_managed_create(8, TextureFormat::RGBA32, 1, 1, 4, &pixels).unwrap();
    let ManagedCreatePlan::Create { texture_id, rgba } = plan else { panic!("expected a create") };
    assert_eq!(texture_id, 1);
    assert_eq!(rgba, vec![1, 2, 3, 4]);
    manager.install_managed_texture(8, ManagedVulkanTexture { texture_id, texture: vulkan_texture(3, 33), rgba });

    assert!(matches!(
        manager.plan_managed_create(8, TextureFormat::RGBA32, 1, 1, 4, &pixels),
        Ok(ManagedCreatePlan::Ready(1))
    ));
    match manager.plan_managed_create(8, TextureFormat::Alpha8, 1, 1, 1, &[200]) {
        Ok(ManagedCreatePlan::Replace { texture_id, rgba }) => {
            assert_eq!(texture_id, 1);
            assert_eq!(rgba, vec![255, 255, 255, 200]);
        },
        other => panic!("unexpected plan {other:?}"),
    }
    assert_eq!(
        manager.plan_managed_create(8, TextureFormat::RGBA32, 2, 1, 8, &[0; 8]).unwrap_err(),
        RendererError::InvalidRenderState("managed texture create dimensions changed during retry")
    );
    assert_eq!(
        manager.plan_managed_create(9, TextureFormat::RGBA32, 0, 1, 4, &pixels).unwrap_err(),
        RendererError::InvalidRenderState("managed texture has zero dimensions")
    );
    assert_eq!(
        manager.plan_managed_create(9, TextureFormat::RGBA32, 2, 1, 4, &pixels).unwrap_err(),
        RendererError::InvalidRenderState("managed texture has an invalid create upload layout")
    );
    assert_eq!(manager.retire_for_destroy(8), Ok(false));
    assert_eq!(
        manager.plan_managed_create(8, TextureFormat::RGBA32, 1, 1, 4, &pixels).unwrap_err(),
        RendererError::InvalidRenderState("managed texture was recreated while retirement is pending")
    );
}

#[test]
fn managed_update_applies_rectangles_to_the_cpu_copy() {
    let mut manager: TextureManager<u64> = TextureManager::new(&mut QueueIdSource::new());
    let mut tex = vulkan_texture(3, 33);
    tex.width = 2;
    tex.height = 1;
    manager.install_managed_texture(4, ManagedVulkanTexture { texture_id: 6, texture: tex, rgba: vec![0; 8] });

    let rect = |x: u16, w: u16, data: Vec<u8>| TextureUploadRect {
        rect: TextureRect { x, y: 0, w, h: 1 },
        row_pitch: data.len(),
        data,
    };
    match manager.plan_managed_update(4, TextureFormat::RGBA32, 2, 1, &[rect(1, 1, vec![9, 9, 9, 9])]) {
        Ok(ManagedUpdatePlan::Replace { texture_id, rgba }) => {
            assert_eq!(texture_id, 6);
            assert_eq!(rgba, vec![0, 0, 0, 0, 9, 9, 9, 9]);
        },
        other => panic!("unexpected plan {other:?}"),
    }
    assert!(matches!(
        manager.plan_managed_update(4, TextureFormat::RGBA32, 2, 1, &[rect(0, 1, vec![0, 0, 0, 0])]),
        Ok(ManagedUpdatePlan::Unchanged(6))
    ));
    assert!(matches!(
        manager.plan_managed_update(4, TextureFormat::RGBA32, 2, 1, &[rect(0, 0, vec![])]),
        Ok(ManagedUpdatePlan::Unchanged(6))
    ));
    assert_eq!(
        manager.plan_managed_update(4, TextureFormat::RGBA32, 2, 1, &[rect(1, 2, vec![1; 8])]).unwrap_err(),
        RendererError::InvalidRenderState("managed texture update rectangle is out of bounds")
    );
    assert_eq!(
        manager.plan_managed_update(4, TextureFormat::RGBA32, 2, 1, &[rect(0, 1, vec![1; 2])]).unwrap_err(),
        RendererError::InvalidRenderState("managed texture has an invalid update upload layout")
    );
    assert_eq!(
        manager.plan_managed_update(4, TextureFormat::RGBA32, 3, 1, &[]).unwrap_err(),
        RendererError::InvalidRenderState("managed texture update dimensions changed without create")
    );
    assert_eq!(
        manager.plan_managed_update(5, TextureFormat::RGBA32, 2, 1, &[]).unwrap_err(),
        RendererError::InvalidRenderState("managed texture received an update before create")
    );
}

#[test]
fn teardown_hands_out_every_texture_and_later_completion_is_a_noop() {
    let mut manager: TextureManager<u64> = TextureManager::new(&mut QueueIdSource::new());
    let legacy = manager.allocate_id();
    manager.install_texture(legacy, vulkan_texture(1, 10));
    let managed = manager.allocate_id();
    manager.install_managed_texture(2, managed_texture(managed, 2, 20, 0));
    let other = manager.allocate_id();
    manager.install_managed_texture(3, managed_texture(other, 3, 30, 0));
    assert_eq!(manager.retire_for_destroy(3), Ok(false));
    let batch = manager.pending_texture_retirement().unwrap();
    let external = manager.register_external_descriptor_set(99);

    let teardown = manager.take_all();
    assert_eq!(teardown.textures.len(), 1);
    assert_eq!(teardown.managed.len(), 1);
    assert_eq!(teardown.retiring.len(), 1);
    assert_eq!(manager.get_descriptor_set(legacy), None);
    assert_eq!(manager.get_descriptor_set(managed), None);
    assert_eq!(manager.get_descriptor_set(external), None);
    assert_eq!(manager.complete_managed_retirements(batch).map(|v| v.len()), Some(0));
}

#[test]
fn byte_comparison_sees_every_byte() {
    assert!(bytes_equal(&[1, 2, 3], &[1, 2, 3]));
    assert!(!bytes_equal(&[1, 2, 3], &[1, 2, 4]));
    assert!(!bytes_equal(&[1, 2], &[1, 2, 3]));
    assert!(bytes_equal(&[], &[]));
}

#[test]
fn texture_update_result_writes_status_and_id() {
    assert_eq!(
        TextureUpdateResult::Created { texture_id: 42 }.data_write(),
        TextureDataWrite {
            tex_id: Some(42),
            want_destroy_next_frame: false,
            status: Some(TextureStatus::UpToDate)
        }
    );
    assert_eq!(
        TextureUpdateResult::Updated.data_write(),
        TextureDataWrite { tex_id: None, want_destroy_next_frame: false, status: Some(TextureStatus::UpToDate) }
    );
    assert_eq!(
        TextureUpdateResult::Destroyed.data_write(),
        TextureDataWrite { tex_id: None, want_destroy_next_frame: true, status: Some(TextureStatus::Destroyed) }
    );
    assert_eq!(
        TextureUpdateResult::Failed.data_write(),
        TextureDataWrite { tex_id: None, want_destroy_next_frame: false, status: Some(TextureStatus::Destroyed) }
    );
    assert_eq!(
        TextureUpdateResult::NoAction.data_write(),
        TextureDataWrite { tex_id: None, want_destroy_next_frame: false, status: None }
    );
}
