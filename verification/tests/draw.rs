use dear_imgui_ash::retirement::QueueIdSource;
use dear_imgui_ash::draw::{
    plan_buffer_update, validate_element_range, BufferUpdate, Frames, ValidatedElementRange,
};
use dear_imgui_ash::error::RendererError;

#[test]
fn element_range_rejects_index_and_vertex_violations() {
    let index_error = validate_element_range(&[0, 1], 2, 2, 1, 0, 0, 0).unwrap_err();
    assert!(matches!(
        index_error,
        RendererError::DrawCommandIndexRangeOutOfBounds {
            start: 1,
            end: 3,
            len: 2,
        }
    ));

    let vertex_error = validate_element_range(&[0, 2], 2, 2, 0, 0, 0, 0).unwrap_err();
    assert!(matches!(
        vertex_error,
        RendererError::DrawCommandVertexOutOfBounds { index: 2, len: 2 }
    ));
}

#[test]
fn element_range_rejects_arithmetic_and_vulkan_offset_overflow() {
    let command_vertex =
        validate_element_range(&[1], usize::MAX, 1, 0, usize::MAX, 0, 0).unwrap_err();
    assert!(matches!(
        command_vertex,
        RendererError::DrawBufferOffsetOverflow {
            buffer: "command vertex"
        }
    ));

    let first_index = validate_element_range(&[0, 0], 1, 1, 1, 0, u32::MAX, 0).unwrap_err();
    assert!(matches!(
        first_index,
        RendererError::DrawBufferOffsetOverflow {
            buffer: "command index"
        }
    ));

    let vertex_offset =
        validate_element_range(&[0], usize::MAX, 1, 0, 1, 0, i32::MAX).unwrap_err();
    assert!(matches!(
        vertex_offset,
        RendererError::DrawBufferOffsetOverflow {
            buffer: "command vertex"
        }
    ));

    let oversized_vertex =
        validate_element_range(&[0], usize::MAX, 1, 0, i32::MAX as usize + 1, 0, 0)
            .unwrap_err();
    assert!(matches!(
        oversized_vertex,
        RendererError::DrawBufferTooLarge {
            buffer: "command vertex"
        }
    ));
}

#[test]
fn element_range_merges_list_offsets() {
    assert_eq!(
        validate_element_range(&[0, 3, 1, 2], 5, 3, 1, 1, 10, 20),
        Ok(ValidatedElementRange {
            count: 3,
            first_index: 11,
            vertex_offset: 21,
        })
    );
    assert!(matches!(
        validate_element_range(&[0], 1, usize::MAX, 1, 0, 0, 0),
        Err(RendererError::DrawBufferOffsetOverflow {
            buffer: "command index"
        })
    ));
}

#[test]
fn frames_hand_out_slots_round_robin() {
    let mut frames = Frames::new(3);
    assert_eq!(frames.next(), Some(0));
    assert_eq!(frames.next(), Some(1));
    assert_eq!(frames.next(), Some(2));
    assert_eq!(frames.next(), Some(0));
    let mut empty = Frames::new(0);
    assert_eq!(empty.next(), None);
}

use dear_imgui_ash::allocator::Memory as DrawTestMemory;
use dear_imgui_ash::draw::{
    prepare_draw_commands, texture_descriptor_set, DrawCommandInput, DrawListInput, DrawResources,
    PreparedDrawCommand, Scissor,
};
use dear_imgui_ash::texture_manager::{TextureManager, VulkanTexture};

fn texture_with_set(descriptor_set: u64) -> VulkanTexture {
    VulkanTexture {
        image: 1,
        image_mem: DrawTestMemory::Device(2),
        image_view: 3,
        sampler: 4,
        descriptor_set,
        width: 1,
        height: 1,
    }
}

#[test]
fn unknown_texture_id_is_rejected_before_recording() {
    let mut textures: TextureManager<u64> = TextureManager::new(&mut QueueIdSource::new());
    let default_id = textures.allocate_id();
    textures.install_texture(default_id, texture_with_set(70));
    assert_eq!(texture_descriptor_set(&textures, default_id, 0), Ok(70));
    assert_eq!(texture_descriptor_set(&textures, default_id, default_id), Ok(70));
    assert_eq!(
        texture_descriptor_set(&textures, default_id, 99),
        Err(RendererError::BadTextureId(99))
    );

    let resources = DrawResources {
        textures: &textures,
        default_texture_id: default_id,
        linear_sampler_set: 5,
        nearest_sampler_set: 6,
    };
    let list = DrawListInput {
        indices: vec![0, 1, 2],
        vertex_count: 3,
        commands: vec![DrawCommandInput::Elements {
            count: 3,
            idx_offset: 0,
            vtx_offset: 0,
            texture_id: 99,
            scissor: Some(Scissor { x: 0, y: 0, width: 4, height: 4 }),
        }],
    };
    assert_eq!(prepare_draw_commands(&resources, &[list]), Err(RendererError::BadTextureId(99)));
}

#[test]
fn prepared_commands_carry_merged_buffer_offsets() {
    let mut textures: TextureManager<u64> = TextureManager::new(&mut QueueIdSource::new());
    let default_id = textures.allocate_id();
    textures.install_texture(default_id, texture_with_set(70));
    let resources = DrawResources {
        textures: &textures,
        default_texture_id: default_id,
        linear_sampler_set: 5,
        nearest_sampler_set: 6,
    };
    let scissor = Scissor { x: 1, y: 2, width: 3, height: 4 };
    let first = DrawListInput {
        indices: vec![0, 1, 2, 2, 1, 3],
        vertex_count: 4,
        commands: vec![
            DrawCommandInput::Elements { count: 6, idx_offset: 0, vtx_offset: 0, texture_id: 0, scissor: Some(scissor) },
            DrawCommandInput::SetSamplerNearest,
            DrawCommandInput::Elements { count: 0, idx_offset: 0, vtx_offset: 0, texture_id: 99, scissor: Some(scissor) },
            DrawCommandInput::Elements { count: 3, idx_offset: 3, vtx_offset: 0, texture_id: 99, scissor: None },
        ],
    };
    let second = DrawListInput {
        indices: vec![0, 1, 2],
        vertex_count: 3,
        commands: vec![
            DrawCommandInput::ResetRenderState,
            DrawCommandInput::RawCallback,
            DrawCommandInput::Elements { count: 3, idx_offset: 0, vtx_offset: 0, texture_id: default_id, scissor: Some(scissor) },
            DrawCommandInput::SetSamplerLinear,
        ],
    };
    let prepared = prepare_draw_commands(&resources, &[first, second]).unwrap();
    assert_eq!(
        prepared,
        vec![
            PreparedDrawCommand::Elements { descriptor_set: 70, scissor, count: 6, first_index: 0, vertex_offset: 0 },
            PreparedDrawCommand::SetSampler(6),
            PreparedDrawCommand::ResetRenderState,
            PreparedDrawCommand::RawCallback { list: 1, command: 1 },
            PreparedDrawCommand::Elements { descriptor_set: 70, scissor, count: 3, first_index: 6, vertex_offset: 4 },
            PreparedDrawCommand::SetSampler(5),
        ]
    );
}

#[test]
fn invalid_command_in_a_later_list_refuses_the_frame() {
    let textures: TextureManager<u64> = TextureManager::new(&mut QueueIdSource::new());
    let resources = DrawResources {
        textures: &textures,
        default_texture_id: 1,
        linear_sampler_set: 5,
        nearest_sampler_set: 6,
    };
    let ok = DrawListInput { indices: vec![], vertex_count: 0, commands: vec![DrawCommandInput::ResetRenderState] };
    let bad = DrawListInput {
        indices: vec![0, 5],
        vertex_count: 2,
        commands: vec![DrawCommandInput::Elements { count: 2, idx_offset: 0, vtx_offset: 0, texture_id: 0, scissor: None }],
    };
    assert_eq!(
        prepare_draw_commands(&resources, &[ok, bad]),
        Err(RendererError::DrawCommandVertexOutOfBounds { index: 5, len: 2 })
    );
}

#[test]
fn mesh_buffers_grow_only_when_contents_exceed_capacity() {
    assert_eq!(plan_buffer_update(0, 0, 20, "vertex buffer size overflow"), Ok(BufferUpdate::Keep));
    assert_eq!(plan_buffer_update(10, 16, 20, "vertex buffer size overflow"), Ok(BufferUpdate::Write));
    assert_eq!(plan_buffer_update(16, 16, 20, "vertex buffer size overflow"), Ok(BufferUpdate::Write));
    assert_eq!(
        plan_buffer_update(17, 16, 20, "vertex buffer size overflow"),
        Ok(BufferUpdate::Grow { size: 340, capacity: 17 })
    );
    assert_eq!(
        plan_buffer_update(usize::MAX, 0, 2, "index buffer size overflow"),
        Err(RendererError::Allocator("index buffer size overflow"))
    );
}
