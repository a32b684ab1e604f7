//! Validation of Dear ImGui draw commands before they are recorded into a command buffer.

use crate::error::RendererError;
use crate::texture_manager::{descriptor_set_for, snapshot_key_laws, TextureManager, TextureManagerView};
use vstd::prelude::*;

verus! {

/// The largest index in `s`, zero when `s` is empty.
pub open spec fn max_index(s: Seq<u16>) -> int
    decreases s.len(),
{
    if s.len() == 0 {
        0
    } else {
        let rest = max_index(s.drop_last());
        if s.last() > rest {
            s.last() as int
        } else {
            rest
        }
    }
}

/// Vulkan draw parameters of one indexed draw command.
#[derive(Clone, Copy, Debug, PartialEq, Eq, Structural)]
pub struct ValidatedElementRange {
    /// Number of indices drawn.
    pub count: u32,
    /// First index in the merged index buffer.
    pub first_index: u32,
    /// Offset added to every index, in the merged vertex buffer.
    pub vertex_offset: i32,
}

/// The draw parameters of one draw command, or why the command is refused; see
/// [`validate_element_range`].
pub open spec fn element_range(
    indices: Seq<u16>,
    vertex_count: usize,
    count: usize,
    index_offset: usize,
    vertex_offset: usize,
    global_index_offset: u32,
    global_vertex_offset: i32,
) -> Result<ValidatedElementRange, RendererError> {
    let local_end = index_offset + count;
    let referenced = vertex_offset + max_index(
        indices.subrange(index_offset as int, local_end),
    );
    if local_end > usize::MAX {
        Err::<ValidatedElementRange, RendererError>(
            RendererError::DrawBufferOffsetOverflow { buffer: "command index" },
        )
    } else if local_end > indices.len() {
        Err::<ValidatedElementRange, RendererError>(
            RendererError::DrawCommandIndexRangeOutOfBounds {
                start: index_offset,
                end: local_end as usize,
                len: indices.len() as usize,
            },
        )
    } else if referenced > usize::MAX {
        Err::<ValidatedElementRange, RendererError>(
            RendererError::DrawBufferOffsetOverflow { buffer: "command vertex" },
        )
    } else if referenced >= vertex_count {
        Err::<ValidatedElementRange, RendererError>(
            RendererError::DrawCommandVertexOutOfBounds {
                index: referenced as usize,
                len: vertex_count,
            },
        )
    } else if count > u32::MAX || index_offset > u32::MAX {
        Err::<ValidatedElementRange, RendererError>(
            RendererError::DrawBufferTooLarge { buffer: "command index" },
        )
    } else if global_index_offset + index_offset > u32::MAX {
        Err::<ValidatedElementRange, RendererError>(
            RendererError::DrawBufferOffsetOverflow { buffer: "command index" },
        )
    } else if vertex_offset > i32::MAX {
        Err::<ValidatedElementRange, RendererError>(
            RendererError::DrawBufferTooLarge { buffer: "command vertex" },
        )
    } else if global_vertex_offset + vertex_offset > i32::MAX {
        Err::<ValidatedElementRange, RendererError>(
            RendererError::DrawBufferOffsetOverflow { buffer: "command vertex" },
        )
    } else {
        Ok::<ValidatedElementRange, RendererError>(
            ValidatedElementRange {
                count: count as u32,
                first_index: (global_index_offset + index_offset) as u32,
                vertex_offset: (global_vertex_offset + vertex_offset) as i32,
            },
        )
    }
}

/// Checks one draw command of a draw list and converts it to merged-buffer draw parameters.
///
/// The command draws `count` indices of `indices` starting at `index_offset`, relative to vertex
/// `vertex_offset` of a list with `vertex_count` vertices. The draw list's buffers start at
/// `global_index_offset` and `global_vertex_offset` in the merged buffers.
pub fn validate_element_range(
    indices: &[u16],
    vertex_count: usize,
    count: usize,
    index_offset: usize,
    vertex_offset: usize,
    global_index_offset: u32,
    global_vertex_offset: i32,
) -> (r: Result<ValidatedElementRange, RendererError>)
    ensures
        r == element_range(
            indices@,
            vertex_count,
            count,
            index_offset,
            vertex_offset,
            global_index_offset,
            global_vertex_offset,
        ),
{
    let local_end = match index_offset.checked_add(count) {
        Some(end) => end,
        None => return Err(RendererError::DrawBufferOffsetOverflow { buffer: "command index" }),
    };
    if local_end > indices.len() {
        return Err(
            RendererError::DrawCommandIndexRangeOutOfBounds {
                start: index_offset,
                end: local_end,
                len: indices.len(),
            },
        );
    }
    let ghost range = indices@.subrange(index_offset as int, local_end as int);
    let mut max: usize = 0;
    let mut i: usize = index_offset;
    while i < local_end
        invariant
            index_offset <= i <= local_end <= indices@.len(),
            range == indices@.subrange(index_offset as int, local_end as int),
            max == max_index(range.take(i - index_offset)),
        decreases local_end - i,
    {
        proof {
            assert(range.take(i + 1 - index_offset).drop_last() =~= range.take(i - index_offset));
            assert(range.take(i + 1 - index_offset).last() == indices@[i as int]);
        }
        let index = indices[i] as usize;
        if index > max {
            max = index;
        }
        i = i + 1;
    }
    proof {
        assert(range.take(local_end - index_offset) =~= range);
    }
    let referenced_vertex = match vertex_offset.checked_add(max) {
        Some(v) => v,
        None => return Err(RendererError::DrawBufferOffsetOverflow { buffer: "command vertex" }),
    };
    if referenced_vertex >= vertex_count {
        return Err(
            RendererError::DrawCommandVertexOutOfBounds {
                index: referenced_vertex,
                len: vertex_count,
            },
        );
    }
    if count > u32::MAX as usize || index_offset > u32::MAX as usize {
        return Err(RendererError::DrawBufferTooLarge { buffer: "command index" });
    }
    let local_index = index_offset as u32;
    let first_index = match global_index_offset.checked_add(local_index) {
        Some(v) => v,
        None => return Err(RendererError::DrawBufferOffsetOverflow { buffer: "command index" }),
    };
    if vertex_offset > i32::MAX as usize {
        return Err(RendererError::DrawBufferTooLarge { buffer: "command vertex" });
    }
    let local_vertex = vertex_offset as i32;
    let vertex_offset = match global_vertex_offset.checked_add(local_vertex) {
        Some(v) => v,
        None => return Err(RendererError::DrawBufferOffsetOverflow { buffer: "command vertex" }),
    };
    Ok(ValidatedElementRange { count: count as u32, first_index, vertex_offset })
}

/// The descriptor set that draws texture `texture_id`; a null id falls back to the default
/// texture.
pub open spec fn texture_descriptor<S>(
    v: TextureManagerView<S>,
    default_texture_id: u64,
    texture_id: u64,
) -> Result<u64, RendererError> {
    match descriptor_set_for(v, texture_id) {
        Some(set) => Ok(set),
        None => if texture_id == 0 {
            match descriptor_set_for(v, default_texture_id) {
                Some(set) => Ok(set),
                None => Err(RendererError::BadTextureId(texture_id)),
            }
        } else {
            Err(RendererError::BadTextureId(texture_id))
        },
    }
}

/// Resolves the descriptor set of a draw command's texture.
pub fn texture_descriptor_set<S: Copy + Eq + std::hash::Hash>(
    textures: &TextureManager<S>,
    default_texture_id: u64,
    texture_id: u64,
) -> (r: Result<u64, RendererError>)
    requires
        textures.wf(),
        snapshot_key_laws::<S>(),
    ensures
        r == texture_descriptor(textures@, default_texture_id, texture_id),
{
    if let Some(set) = textures.get_descriptor_set(texture_id) {
        return Ok(set);
    }
    if texture_id == 0 {
        if let Some(set) = textures.get_descriptor_set(default_texture_id) {
            return Ok(set);
        }
    }
    Err(RendererError::BadTextureId(texture_id))
}

/// A framebuffer scissor rectangle (`VkRect2D`).
#[derive(Clone, Copy, Debug, PartialEq, Eq, Structural)]
pub struct Scissor {
    /// Left edge.
    pub x: i32,
    /// Top edge.
    pub y: i32,
    /// Width.
    pub width: u32,
    /// Height.
    pub height: u32,
}

/// One Dear ImGui draw command as the renderer reads it. The clip rectangle of an element
/// command arrives already converted to a framebuffer scissor, `None` when nothing is visible.
#[derive(Clone, Copy, Debug, PartialEq, Eq, Structural)]
pub enum DrawCommandInput {
    /// Draw `count` indices starting at `idx_offset`, relative to vertex `vtx_offset`.
    Elements { count: usize, idx_offset: usize, vtx_offset: usize, texture_id: u64, scissor: Option<Scissor> },
    /// Restore the renderer's pipeline state.
    ResetRenderState,
    /// Sample with linear filtering from now on.
    SetSamplerLinear,
    /// Sample with nearest filtering from now on.
    SetSamplerNearest,
    /// Sample with each texture's own sampler settings from now on; textures of this renderer
    /// sample with the linear sampler.
    SetSamplerFromTexture,
    /// Run an application callback.
    RawCallback,
}

/// One draw list: its index buffer, its vertex count and its commands.
#[derive(Debug)]
pub struct DrawListInput {
    /// The list's indices.
    pub indices: Vec<u16>,
    /// Number of vertices in the list's vertex buffer.
    pub vertex_count: usize,
    /// The list's commands, in order.
    pub commands: Vec<DrawCommandInput>,
}

/// A validated command ready to be recorded.
#[derive(Clone, Copy, Debug, PartialEq, Eq, Structural)]
pub enum PreparedDrawCommand {
    /// Bind `descriptor_set`, set `scissor` and draw.
    Elements { descriptor_set: u64, scissor: Scissor, count: u32, first_index: u32, vertex_offset: i32 },
    /// Restore the renderer's pipeline state.
    ResetRenderState,
    /// Bind this sampler descriptor set.
    SetSampler(u64),
    /// Run the callback of command `command` of draw list `list`.
    RawCallback { list: usize, command: usize },
}

/// The samplers and textures that draw commands resolve against.
#[verifier::reject_recursive_types(S)]
pub struct DrawResources<'a, S> {
    /// The renderer's textures.
    pub textures: &'a TextureManager<S>,
    /// Texture drawn for a null texture id.
    pub default_texture_id: u64,
    /// Descriptor set of the linear sampler.
    pub linear_sampler_set: u64,
    /// Descriptor set of the nearest sampler.
    pub nearest_sampler_set: u64,
}

/// The prepared form of command `ci` of list `list` (number `li`), when it draws anything.
pub open spec fn prepare_command<S>(
    v: TextureManagerView<S>,
    default_texture_id: u64,
    linear: u64,
    nearest: u64,
    list: DrawListInput,
    li: int,
    ci: int,
    gi: u32,
    gv: i32,
) -> Result<Option<PreparedDrawCommand>, RendererError> {
    match list.commands@[ci] {
        DrawCommandInput::Elements { count, idx_offset, vtx_offset, texture_id, scissor } => {
            if count == 0 {
                Ok(None)
            } else {
                match element_range(list.indices@, list.vertex_count, count, idx_offset, vtx_offset, gi, gv) {
                    Err(e) => Err(e),
                    Ok(range) => match scissor {
                        None => Ok(None),
                        Some(sc) => match texture_descriptor(v, default_texture_id, texture_id) {
                            Err(e) => Err(e),
                            Ok(set) => Ok(
                                Some(
                                    PreparedDrawCommand::Elements {
                                        descriptor_set: set,
                                        scissor: sc,
                                        count: range.count,
                                        first_index: range.first_index,
                                        vertex_offset: range.vertex_offset,
                                    },
                                ),
                            ),
                        },
                    },
                }
            }
        },
        DrawCommandInput::ResetRenderState => Ok(Some(PreparedDrawCommand::ResetRenderState)),
        DrawCommandInput::SetSamplerLinear => Ok(Some(PreparedDrawCommand::SetSampler(linear))),
        DrawCommandInput::SetSamplerNearest => Ok(Some(PreparedDrawCommand::SetSampler(nearest))),
        DrawCommandInput::SetSamplerFromTexture => Ok(Some(PreparedDrawCommand::SetSampler(linear))),
        DrawCommandInput::RawCallback => Ok(
            Some(PreparedDrawCommand::RawCallback { list: li as usize, command: ci as usize }),
        ),
    }
}

/// The prepared commands of the first `n` commands of `list`.
pub open spec fn prepare_list_prefix<S>(
    v: TextureManagerView<S>,
    default_texture_id: u64,
    linear: u64,
    nearest: u64,
    list: DrawListInput,
    li: int,
    n: int,
    gi: u32,
    gv: i32,
) -> Result<Seq<PreparedDrawCommand>, RendererError>
    decreases n,
{
    if n <= 0 {
        Ok(Seq::empty())
    } else {
        match prepare_list_prefix(v, default_texture_id, linear, nearest, list, li, n - 1, gi, gv) {
            Err(e) => Err(e),
            Ok(done) => match prepare_command(v, default_texture_id, linear, nearest, list, li, n - 1, gi, gv) {
                Err(e) => Err(e),
                Ok(None) => Ok(done),
                Ok(Some(c)) => Ok(done.push(c)),
            },
        }
    }
}

/// Merged-buffer offsets after a list with `index_count` indices and `vertex_count` vertices.
pub open spec fn advance_offsets(
    gi: u32,
    gv: i32,
    index_count: int,
    vertex_count: int,
) -> Result<(u32, i32), RendererError> {
    if index_count > u32::MAX {
        Err(RendererError::DrawBufferTooLarge { buffer: "index" })
    } else if gi + index_count > u32::MAX {
        Err(RendererError::DrawBufferOffsetOverflow { buffer: "index" })
    } else if vertex_count > i32::MAX {
        Err(RendererError::DrawBufferTooLarge { buffer: "vertex" })
    } else if gv + vertex_count > i32::MAX {
        Err(RendererError::DrawBufferOffsetOverflow { buffer: "vertex" })
    } else {
        Ok(((gi + index_count) as u32, (gv + vertex_count) as i32))
    }
}

/// The prepared commands of the first `n` lists, with the merged-buffer offsets after them.
pub open spec fn prepare_lists<S>(
    v: TextureManagerView<S>,
    default_texture_id: u64,
    linear: u64,
    nearest: u64,
    lists: Seq<DrawListInput>,
    n: int,
) -> Result<(Seq<PreparedDrawCommand>, u32, i32), RendererError>
    decreases n,
{
    if n <= 0 {
        Ok((Seq::empty(), 0, 0))
    } else {
        match prepare_lists(v, default_texture_id, linear, nearest, lists, n - 1) {
            Err(e) => Err(e),
            Ok((done, gi, gv)) => {
                let list = lists[n - 1];
                match prepare_list_prefix(v, default_texture_id, linear, nearest, list, n - 1, list.commands@.len() as int, gi, gv) {
                    Err(e) => Err(e),
                    Ok(cmds) => match advance_offsets(gi, gv, list.indices@.len() as int, list.vertex_count as int) {
                        Err(e) => Err(e),
                        Ok((gi2, gv2)) => Ok((done + cmds, gi2, gv2)),
                    },
                }
            },
        }
    }
}

/// Validates every draw command of a frame and resolves its texture and merged-buffer offsets.
///
/// Commands with no indices or an invisible scissor are skipped; the first invalid command
/// refuses the whole frame.
pub fn prepare_draw_commands<S: Copy + Eq + std::hash::Hash>(
    resources: &DrawResources<S>,
    lists: &[DrawListInput],
) -> (r: Result<Vec<PreparedDrawCommand>, RendererError>)
    requires
        resources.textures.wf(),
        snapshot_key_laws::<S>(),
    ensures
        match prepare_lists(
            resources.textures@,
            resources.default_texture_id,
            resources.linear_sampler_set,
            resources.nearest_sampler_set,
            lists@,
            lists@.len() as int,
        ) {
            Err(e) => r == Err::<Vec<PreparedDrawCommand>, RendererError>(e),
            Ok((cmds, _, _)) => r matches Ok(out) && out@ == cmds,
        },
{
    let ghost v = resources.textures@;
    let ghost d = resources.default_texture_id;
    let ghost lin = resources.linear_sampler_set;
    let ghost near = resources.nearest_sampler_set;
    let mut commands: Vec<PreparedDrawCommand> = Vec::new();
    let mut global_idx_offset: u32 = 0;
    let mut global_vtx_offset: i32 = 0;
    let mut li: usize = 0;
    while li < lists.len()
        invariant
            resources.textures.wf(),
            snapshot_key_laws::<S>(),
            v == resources.textures@,
            d == resources.default_texture_id,
            lin == resources.linear_sampler_set,
            near == resources.nearest_sampler_set,
            li <= lists@.len(),
            prepare_lists(v, d, lin, near, lists@, li as int) == Ok::<
                (Seq<PreparedDrawCommand>, u32, i32),
                RendererError,
            >((commands@, global_idx_offset, global_vtx_offset)),
        decreases lists@.len() - li,
    {
        let list = &lists[li];
        let ghost before = commands@;
        let ghost gi0 = global_idx_offset;
        let ghost gv0 = global_vtx_offset;
        proof {
            assert(commands@.subrange(before.len() as int, commands@.len() as int) =~= Seq::<
                PreparedDrawCommand,
            >::empty());
            assert(commands@.subrange(0, before.len() as int) =~= before);
        }
        let mut ci: usize = 0;
        while ci < list.commands.len()
            invariant
                resources.textures.wf(),
                snapshot_key_laws::<S>(),
                v == resources.textures@,
                d == resources.default_texture_id,
                lin == resources.linear_sampler_set,
                near == resources.nearest_sampler_set,
                li < lists@.len(),
                *list == lists@[li as int],
                gi0 == global_idx_offset,
                gv0 == global_vtx_offset,
                prepare_lists(v, d, lin, near, lists@, li as int) == Ok::<
                    (Seq<PreparedDrawCommand>, u32, i32),
                    RendererError,
                >((before, global_idx_offset, global_vtx_offset)),
                ci <= list.commands@.len(),
                prepare_list_prefix(v, d, lin, near, *list, li as int, ci as int, global_idx_offset, global_vtx_offset)
                    == Ok::<Seq<PreparedDrawCommand>, RendererError>(commands@.subrange(before.len() as int, commands@.len() as int)),
                commands@.len() >= before.len(),
                commands@.subrange(0, before.len() as int) == before,
            decreases list.commands@.len() - ci,
        {
            let ghost prev = commands@;
            let step = match list.commands[ci] {
                DrawCommandInput::Elements { count, idx_offset, vtx_offset, texture_id, scissor } => {
                    if count == 0 {
                        None
                    } else {
                        let range = match validate_element_range(
                            list.indices.as_slice(),
                            list.vertex_count,
                            count,
                            idx_offset,
                            vtx_offset,
                            global_idx_offset,
                            global_vtx_offset,
                        ) {
                            Ok(range) => range,
                            Err(e) => {
                                proof {
                                    lemma_list_prefix_failed(v, d, lin, near, *list, li as int, ci as int + 1, global_idx_offset, global_vtx_offset);
                                    lemma_lists_failed(v, d, lin, near, lists@, li as int + 1);
                                }
                                return Err(e);
                            },
                        };
                        match scissor {
                            None => None,
                            Some(sc) => {
                                let set = match texture_descriptor_set(
                                    resources.textures,
                                    resources.default_texture_id,
                                    texture_id,
                                ) {
                                    Ok(set) => set,
                                    Err(e) => {
                                        proof {
                                            lemma_list_prefix_failed(v, d, lin, near, *list, li as int, ci as int + 1, global_idx_offset, global_vtx_offset);
                                            lemma_lists_failed(v, d, lin, near, lists@, li as int + 1);
                                        }
                                        return Err(e);
                                    },
                                };
                                Some(
                                    PreparedDrawCommand::Elements {
                                        descriptor_set: set,
                                        scissor: sc,
                                        count: range.count,
                                        first_index: range.first_index,
                                        vertex_offset: range.vertex_offset,
                                    },
                                )
                            },
                        }
                    }
                },
                DrawCommandInput::ResetRenderState => Some(PreparedDrawCommand::ResetRenderState),
                DrawCommandInput::SetSamplerLinear => Some(
                    PreparedDrawCommand::SetSampler(resources.linear_sampler_set),
                ),
                DrawCommandInput::SetSamplerNearest => Some(
                    PreparedDrawCommand::SetSampler(resources.nearest_sampler_set),
                ),
                DrawCommandInput::SetSamplerFromTexture => Some(
                    PreparedDrawCommand::SetSampler(resources.linear_sampler_set),
                ),
                DrawCommandInput::RawCallback => Some(
                    PreparedDrawCommand::RawCallback { list: li, command: ci },
                ),
            };
            if let Some(c) = step {
                commands.push(c);
                proof {
                    assert(commands@.subrange(before.len() as int, commands@.len() as int)
                        =~= prev.subrange(before.len() as int, prev.len() as int).push(c));
                    assert(commands@.subrange(0, before.len() as int) =~= prev.subrange(0, before.len() as int));
                }
            }
            ci = ci + 1;
        }
        let ghost cmds = commands@.subrange(before.len() as int, commands@.len() as int);
        proof {
            assert(commands@ =~= before + cmds);
        }
        let index_count = list.indices.len();
        if index_count > u32::MAX as usize {
            proof {
                lemma_lists_failed(v, d, lin, near, lists@, li as int + 1);
            }
            return Err(RendererError::DrawBufferTooLarge { buffer: "index" });
        }
        global_idx_offset = match global_idx_offset.checked_add(index_count as u32) {
            Some(o) => o,
            None => {
                proof {
                    lemma_lists_failed(v, d, lin, near, lists@, li as int + 1);
                }
                return Err(RendererError::DrawBufferOffsetOverflow { buffer: "index" });
            },
        };
        let vertex_count = list.vertex_count;
        if vertex_count > i32::MAX as usize {
            proof {
                lemma_lists_failed(v, d, lin, near, lists@, li as int + 1);
            }
            return Err(RendererError::DrawBufferTooLarge { buffer: "vertex" });
        }
        global_vtx_offset = match global_vtx_offset.checked_add(vertex_count as i32) {
            Some(o) => o,
            None => {
                proof {
                    lemma_lists_failed(v, d, lin, near, lists@, li as int + 1);
                }
                return Err(RendererError::DrawBufferOffsetOverflow { buffer: "vertex" });
            },
        };
        li = li + 1;
    }
    Ok(commands)
}

/// Once the first `n` commands of a list fail, the whole list fails the same way.
proof fn lemma_list_prefix_failed<S>(
    v: TextureManagerView<S>,
    d: u64,
    lin: u64,
    near: u64,
    list: DrawListInput,
    li: int,
    n: int,
    gi: u32,
    gv: i32,
)
    requires
        0 <= n <= list.commands@.len(),
        prepare_list_prefix(v, d, lin, near, list, li, n, gi, gv) is Err,
    ensures
        prepare_list_prefix(v, d, lin, near, list, li, list.commands@.len() as int, gi, gv)
            == prepare_list_prefix(v, d, lin, near, list, li, n, gi, gv),
    decreases list.commands@.len() - n,
{
    if n < list.commands@.len() {
        lemma_list_prefix_failed(v, d, lin, near, list, li, n + 1, gi, gv);
    }
}

/// Once the first `n` lists fail, all of them fail the same way.
proof fn lemma_lists_failed<S>(
    v: TextureManagerView<S>,
    d: u64,
    lin: u64,
    near: u64,
    lists: Seq<DrawListInput>,
    n: int,
)
    requires
        0 <= n <= lists.len(),
        prepare_lists(v, d, lin, near, lists, n) is Err,
    ensures
        prepare_lists(v, d, lin, near, lists, lists.len() as int) == prepare_lists(v, d, lin, near, lists, n),
    decreases lists.len() - n,
{
    if n < lists.len() {
        lemma_lists_failed(v, d, lin, near, lists, n + 1);
    }
}

/// No index of `s` exceeds its maximum.
proof fn lemma_max_index_bounds(s: Seq<u16>)
    ensures
        forall|k: int| 0 <= k < s.len() ==> s[k] <= max_index(s),
    decreases s.len(),
{
    if s.len() > 0 {
        lemma_max_index_bounds(s.drop_last());
        assert forall|k: int| 0 <= k < s.len() implies s[k] <= max_index(s) by {
            if k < s.len() - 1 {
                assert(s[k] == s.drop_last()[k]);
            }
        }
    }
}

/// Every vertex that an accepted draw command references exists: its index range lies in the
/// list's index buffer and each index, offset by the command's vertex offset, names a vertex of
/// the list.
pub proof fn law_accepted_draw_in_bounds(
    indices: Seq<u16>,
    vertex_count: usize,
    count: usize,
    index_offset: usize,
    vertex_offset: usize,
    global_index_offset: u32,
    global_vertex_offset: i32,
)
    requires
        element_range(
            indices,
            vertex_count,
            count,
            index_offset,
            vertex_offset,
            global_index_offset,
            global_vertex_offset,
        ) is Ok,
    ensures
        index_offset + count <= indices.len(),
        forall|k: int|
            index_offset <= k < index_offset + count ==> vertex_offset + indices[k] < vertex_count,
{
    let range = indices.subrange(index_offset as int, index_offset + count);
    lemma_max_index_bounds(range);
    assert forall|k: int| index_offset <= k < index_offset + count implies vertex_offset
        + indices[k] < vertex_count by {
        assert(range[k - index_offset] == indices[k]);
    }
}

/// What refreshing a mesh buffer with new contents takes.
#[derive(Clone, Copy, Debug, PartialEq, Eq, Structural)]
pub enum BufferUpdate {
    /// Nothing to upload.
    Keep,
    /// The buffer is large enough: write the contents into it.
    Write,
    /// Allocate a buffer of `size` bytes holding `capacity` elements, write into it, then release
    /// the old one.
    Grow { size: usize, capacity: usize },
}

/// Decides how a mesh buffer holding `capacity` elements takes `len` elements of
/// `element_size` bytes; a byte size that overflows is an allocator error with `overflow_message`.
pub fn plan_buffer_update(
    len: usize,
    capacity: usize,
    element_size: usize,
    overflow_message: &'static str,
) -> (r: Result<BufferUpdate, RendererError>)
    ensures
        r == if len == 0 {
            Ok::<BufferUpdate, RendererError>(BufferUpdate::Keep)
        } else if len <= capacity {
            Ok::<BufferUpdate, RendererError>(BufferUpdate::Write)
        } else if len * element_size > usize::MAX {
            Err::<BufferUpdate, RendererError>(RendererError::Allocator(overflow_message))
        } else {
            Ok::<BufferUpdate, RendererError>(
                BufferUpdate::Grow { size: (len * element_size) as usize, capacity: len },
            )
        },
{
    if len == 0 {
        return Ok(BufferUpdate::Keep);
    }
    if len <= capacity {
        return Ok(BufferUpdate::Write);
    }
    match len.checked_mul(element_size) {
        None => Err(RendererError::Allocator(overflow_message)),
        Some(size) => Ok(BufferUpdate::Grow { size, capacity: len }),
    }
}

/// Round-robin choice among a fixed number of per-frame mesh slots.
#[derive(Debug)]
pub struct Frames {
    count: usize,
    index: usize,
}

impl Frames {
    /// Number of slots.
    pub closed spec fn slot_count(&self) -> usize {
        self.count
    }

    /// Slot that the next call of `next` hands out.
    pub closed spec fn cursor(&self) -> usize {
        self.index
    }

    /// The cursor always names a slot, or is zero without slots.
    pub closed spec fn wf(&self) -> bool {
        if self.count == 0 {
            self.index == 0
        } else {
            self.index < self.count
        }
    }

    /// Creates a ring of `count` slots starting at slot zero.
    pub fn new(count: usize) -> (r: Frames)
        ensures
            r.wf(),
            r.slot_count() == count,
            r.cursor() == 0,
    {
        Frames { count, index: 0 }
    }

    /// Hands out the current slot and advances to the next one, wrapping around.
    pub fn next(&mut self) -> (r: Option<usize>)
        requires
            old(self).wf(),
        ensures
            final(self).wf(),
            final(self).slot_count() == old(self).slot_count(),
            old(self).slot_count() == 0 ==> r is None && final(self).cursor() == old(self).cursor(),
            old(self).slot_count() > 0 ==> {
                &&& r == Some(old(self).cursor())
                &&& final(self).cursor() == (old(self).cursor() + 1) % (old(self).slot_count() as int)
            },
    {
        if self.count == 0 {
            return None;
        }
        let i = self.index;
        self.index = (self.index + 1) % self.count;
        Some(i)
    }
}

} // verus!
