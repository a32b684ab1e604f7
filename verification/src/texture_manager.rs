//! Texture bookkeeping: legacy textures addressed by id, managed textures addressed by their
//! Dear ImGui snapshot identity, application-registered descriptor sets, and managed images
//! waiting in the retirement queue until the GPU no longer reads them.
//!
//! `S` is the snapshot identity of a managed texture; texture ids and Vulkan handles appear as
//! their raw 64-bit values.

use crate::allocator::Memory;
use crate::error::RendererError;
use crate::pixels::{
    blit_offset, blit_target, block_offset, lemma_blit_rows_elementwise, apply_rgba_rect, blit_rows, clamp_rect, clamped_rect, rgba_rect_fits, rgba_rows,
    subrect_readable, subrect_rgba, texture_data_to_rgba_full, texture_data_to_rgba_subrect,
    texture_pixels_complete, texture_upload_to_rgba, upload_layout_ok, TextureDataView,
    TextureFormat, TextureRect,
};
use crate::retirement::{
    drawn_queue_id, has_key, key_values, keys_distinct, next_after_draw, retired_through,
    retained_after, value_for_key, QueueIdSource, RetirementQueue, RetirementRequest,
    RetirementReservation, TextureRetirementBatch,
};
use std::collections::HashMap;
use vstd::laws_eq::obeys_concrete_eq;
use vstd::prelude::*;
use vstd::std_specs::cmp::PartialEqSpec;
use vstd::std_specs::hash::obeys_key_model;

verus! {

broadcast use {vstd::std_specs::hash::group_hash_axioms, crate::retirement::lemma_batch_view_injective};

/// The Vulkan objects of one sampled texture.
#[derive(Clone, Copy, Debug, PartialEq, Eq, Structural)]
pub struct VulkanTexture {
    /// `VkImage`.
    pub image: u64,
    /// Device memory bound to the image.
    pub image_mem: Memory,
    /// `VkImageView`.
    pub image_view: u64,
    /// `VkSampler`.
    pub sampler: u64,
    /// `VkDescriptorSet` that binds the view and sampler.
    pub descriptor_set: u64,
    /// Width in texels.
    pub width: u32,
    /// Height in texels.
    pub height: u32,
}

/// A descriptor set registered by the application under a texture id.
#[derive(Clone, Copy, Debug, PartialEq, Eq, Structural)]
pub struct ExternalTextureBinding {
    /// `VkDescriptorSet`.
    pub descriptor_set: u64,
    /// The image view written into the set, when the renderer allocated it.
    pub image_view: Option<u64>,
    /// The sampler written into the set, when the renderer allocated it.
    pub sampler: Option<u64>,
    /// Whether the renderer allocated the set and must free it.
    pub free_descriptor_set: bool,
}

impl ExternalTextureBinding {
    /// A set owned by the application: the renderer only refers to it.
    pub fn borrowed_descriptor_set(descriptor_set: u64) -> (r: Self)
        ensures
            r == (ExternalTextureBinding {
                descriptor_set,
                image_view: None,
                sampler: None,
                free_descriptor_set: false,
            }),
    {
        ExternalTextureBinding {
            descriptor_set,
            image_view: None,
            sampler: None,
            free_descriptor_set: false,
        }
    }

    /// A set the renderer allocated for an application image view and sampler.
    pub fn owned_descriptor_set(descriptor_set: u64, image_view: u64, sampler: u64) -> (r: Self)
        ensures
            r == (ExternalTextureBinding {
                descriptor_set,
                image_view: Some(image_view),
                sampler: Some(sampler),
                free_descriptor_set: true,
            }),
    {
        ExternalTextureBinding {
            descriptor_set,
            image_view: Some(image_view),
            sampler: Some(sampler),
            free_descriptor_set: true,
        }
    }
}

/// A live managed texture together with the complete RGBA8 pixels of its image, kept so that
/// the image can be replaced without reading GPU-owned memory.
#[derive(Debug)]
pub struct ManagedVulkanTexture {
    /// Texture id under which draw commands find the texture.
    pub texture_id: u64,
    /// The Vulkan objects.
    pub texture: VulkanTexture,
    /// Tightly packed RGBA8 pixels of the image.
    pub rgba: Vec<u8>,
}

/// A managed texture image that no new work may reference.
#[derive(Clone, Copy, Debug, PartialEq, Eq, Structural)]
pub struct RetiredManagedVulkanTexture {
    /// Texture id the image was drawn under.
    pub texture_id: u64,
    /// The Vulkan objects to destroy once the GPU is done with them.
    pub texture: VulkanTexture,
}

/// The retired form of a managed texture.
pub open spec fn retired_form(managed: ManagedVulkanTexture) -> RetiredManagedVulkanTexture {
    RetiredManagedVulkanTexture { texture_id: managed.texture_id, texture: managed.texture }
}

impl ManagedVulkanTexture {
    /// Drops the CPU pixel copy, keeping what destruction needs.
    pub fn retire(self) -> (r: RetiredManagedVulkanTexture)
        ensures
            r == retired_form(self),
    {
        RetiredManagedVulkanTexture { texture_id: self.texture_id, texture: self.texture }
    }
}

/// Why a managed texture image waits for retirement.
#[derive(Clone, Copy, Debug, Eq, Hash)]
pub enum ManagedTextureRetirementKey<S> {
    /// Dear ImGui destroyed the texture; its id stays resolvable until the image is destroyed.
    Destroyed(S),
    /// A replacement image superseded this one in the given batch.
    Superseded(TextureRetirementBatch),
}

impl<S: PartialEq> PartialEq for ManagedTextureRetirementKey<S> {
    fn eq(&self, other: &Self) -> (r: bool) {
        match (self, other) {
            (ManagedTextureRetirementKey::Destroyed(a), ManagedTextureRetirementKey::Destroyed(
                b,
            )) => a == b,
            (
                ManagedTextureRetirementKey::Superseded(a),
                ManagedTextureRetirementKey::Superseded(b),
            ) => a == b,
            _ => false,
        }
    }
}

impl<S: PartialEq> vstd::std_specs::cmp::PartialEqSpecImpl for ManagedTextureRetirementKey<S> {
    open spec fn obeys_eq_spec() -> bool {
        S::obeys_eq_spec()
    }

    open spec fn eq_spec(&self, other: &Self) -> bool {
        match (self, other) {
            (ManagedTextureRetirementKey::Destroyed(a), ManagedTextureRetirementKey::Destroyed(
                b,
            )) => a.eq_spec(b),
            (
                ManagedTextureRetirementKey::Superseded(a),
                ManagedTextureRetirementKey::Superseded(b),
            ) => a == b,
            _ => false,
        }
    }
}

/// Equality of retirement keys is structural whenever equality of snapshot identities is.
pub proof fn lemma_retirement_key_concrete_eq<S: PartialEq>()
    requires
        obeys_concrete_eq::<S>(),
    ensures
        obeys_concrete_eq::<ManagedTextureRetirementKey<S>>(),
{
    reveal(obeys_concrete_eq);
    assert forall|x: ManagedTextureRetirementKey<S>, y: ManagedTextureRetirementKey<S>|
        (x.eq_spec(&y) <==> (x == y)) by {
        match (x, y) {
            (ManagedTextureRetirementKey::Destroyed(a), ManagedTextureRetirementKey::Destroyed(
                b,
            )) => {
                assert(a.eq_spec(&b) <==> a == b);
            },
            _ => {},
        }
    }
}

/// What the manager needs of snapshot identities: hashing and equality that follow their
/// values.
pub open spec fn snapshot_key_laws<S: PartialEq>() -> bool {
    &&& obeys_key_model::<S>()
    &&& obeys_concrete_eq::<S>()
}

/// The state of a texture manager as mathematical values.
#[verifier::reject_recursive_types(S)]
pub struct TextureManagerView<S> {
    /// Legacy textures by id.
    pub textures: Map<u64, VulkanTexture>,
    /// Live managed textures by snapshot identity.
    pub managed: Map<S, ManagedVulkanTexture>,
    /// Snapshot identity of every managed texture id that can still be drawn.
    pub managed_ids: Map<u64, S>,
    /// Retiring managed images, in the order they entered the queue.
    pub retiring: Seq<(ManagedTextureRetirementKey<S>, TextureRetirementBatch, RetiredManagedVulkanTexture)>,
    /// Identity of the retirement queue.
    pub queue_id: u64,
    /// Sequence of the latest reserved retirement batch.
    pub last_issued: u64,
    /// Application descriptor sets by id.
    pub external: Map<u64, ExternalTextureBinding>,
    /// Next id to hand out.
    pub next_id: u64,
}

/// Whether the manager's retirement queue can still issue a batch: it has an identity and
/// sequence space left.
pub open spec fn can_retire<S>(v: TextureManagerView<S>) -> bool {
    v.queue_id != 0 && v.last_issued < u64::MAX
}

/// Whether `s` holds an image superseded in the batch whose view is `batch`.
pub open spec fn has_superseded<S>(
    s: Seq<(ManagedTextureRetirementKey<S>, TextureRetirementBatch, RetiredManagedVulkanTexture)>,
    batch: (u64, u64),
) -> bool {
    exists|i: int|
        0 <= i < s.len() && (#[trigger] s[i].0 matches ManagedTextureRetirementKey::Superseded(b)
            && b@ == batch)
}

/// The descriptor set that draws texture `id`: a legacy texture first, then a managed texture
/// (live, or destroyed but still retiring), then an application binding.
pub open spec fn descriptor_set_for<S>(v: TextureManagerView<S>, id: u64) -> Option<u64> {
    if v.textures.contains_key(id) {
        Some(v.textures[id].descriptor_set)
    } else if v.managed_ids.contains_key(id) {
        let s = v.managed_ids[id];
        if v.managed.contains_key(s) {
            Some(v.managed[s].texture.descriptor_set)
        } else if has_key(v.retiring, ManagedTextureRetirementKey::Destroyed(s)) {
            Some(
                value_for_key(v.retiring, ManagedTextureRetirementKey::Destroyed(s)).texture.descriptor_set,
            )
        } else {
            None
        }
    } else if v.external.contains_key(id) {
        Some(v.external[id].descriptor_set)
    } else {
        None
    }
}

/// The id handed out after `id`: one more, saturating at the largest value.
pub open spec fn next_texture_id(id: u64) -> u64 {
    if id == u64::MAX {
        u64::MAX
    } else {
        (id + 1) as u64
    }
}

/// `ids` without the ids of the destroyed textures among `done`, in order.
pub open spec fn release_destroyed<S>(
    ids: Map<u64, S>,
    done: Seq<(ManagedTextureRetirementKey<S>, RetiredManagedVulkanTexture)>,
) -> Map<u64, S>
    decreases done.len(),
{
    if done.len() == 0 {
        ids
    } else {
        let rest = release_destroyed(ids, done.drop_last());
        if done.last().0 is Destroyed {
            rest.remove(done.last().1.texture_id)
        } else {
            rest
        }
    }
}

/// Status of a legacy texture as Dear ImGui reports it.
#[derive(Clone, Copy, Debug, PartialEq, Eq, Structural)]
pub enum TextureStatus {
    /// The texture is up to date.
    UpToDate,
    /// The texture is gone.
    Destroyed,
    /// The texture must be created from its pixels.
    WantCreate,
    /// The update rectangle of the texture must be uploaded.
    WantUpdates,
    /// The texture must be destroyed.
    WantDestroy,
}

/// Result of a legacy texture transition, to be written back into Dear ImGui's texture data.
#[derive(Clone, Copy, Debug, PartialEq, Eq, Structural)]
pub enum TextureUpdateResult {
    /// The texture was created under this id.
    Created { texture_id: u64 },
    /// The texture was updated.
    Updated,
    /// The texture was destroyed.
    Destroyed,
    /// The transition failed.
    Failed,
    /// Nothing was needed.
    NoAction,
}

/// What applying a transition result writes into Dear ImGui's texture data, in this order: the
/// texture id, the `WantDestroyNextFrame` flag, then the status.
#[derive(Clone, Copy, Debug, PartialEq, Eq, Structural)]
pub struct TextureDataWrite {
    /// The texture id to set, if any.
    pub tex_id: Option<u64>,
    /// Whether `WantDestroyNextFrame` is set, so that Dear ImGui keeps a requested destroy.
    pub want_destroy_next_frame: bool,
    /// The status to set, if any.
    pub status: Option<TextureStatus>,
}

/// The write for `result`: a creation sets the id and marks the texture up to date; an update
/// marks it up to date; a destroy sets `WantDestroyNextFrame` and marks it destroyed; a failure
/// marks it destroyed (Dear ImGui may turn that back into a creation request); no action writes
/// nothing.
pub open spec fn texture_data_write(result: TextureUpdateResult) -> TextureDataWrite {
    match result {
        TextureUpdateResult::Created { texture_id } => TextureDataWrite {
            tex_id: Some(texture_id),
            want_destroy_next_frame: false,
            status: Some(TextureStatus::UpToDate),
        },
        TextureUpdateResult::Updated => TextureDataWrite {
            tex_id: None,
            want_destroy_next_frame: false,
            status: Some(TextureStatus::UpToDate),
        },
        TextureUpdateResult::Destroyed => TextureDataWrite {
            tex_id: None,
            want_destroy_next_frame: true,
            status: Some(TextureStatus::Destroyed),
        },
        TextureUpdateResult::Failed => TextureDataWrite {
            tex_id: None,
            want_destroy_next_frame: false,
            status: Some(TextureStatus::Destroyed),
        },
        TextureUpdateResult::NoAction => TextureDataWrite {
            tex_id: None,
            want_destroy_next_frame: false,
            status: None,
        },
    }
}

impl TextureUpdateResult {
    /// What applying this result to the texture's Dear ImGui data writes.
    pub fn data_write(self) -> (r: TextureDataWrite)
        ensures
            r == texture_data_write(self),
    {
        match self {
            TextureUpdateResult::Created { texture_id } => TextureDataWrite {
                tex_id: Some(texture_id),
                want_destroy_next_frame: false,
                status: Some(TextureStatus::UpToDate),
            },
            TextureUpdateResult::Updated => TextureDataWrite {
                tex_id: None,
                want_destroy_next_frame: false,
                status: Some(TextureStatus::UpToDate),
            },
            TextureUpdateResult::Destroyed => TextureDataWrite {
                tex_id: None,
                want_destroy_next_frame: true,
                status: Some(TextureStatus::Destroyed),
            },
            TextureUpdateResult::Failed => TextureDataWrite {
                tex_id: None,
                want_destroy_next_frame: false,
                status: Some(TextureStatus::Destroyed),
            },
            TextureUpdateResult::NoAction => TextureDataWrite {
                tex_id: None,
                want_destroy_next_frame: false,
                status: None,
            },
        }
    }
}

/// What a legacy texture transition needs from Vulkan.
#[derive(Debug)]
pub enum LegacyTexturePlan {
    /// Nothing to do.
    NoAction,
    /// Create the image for texture `id`; when `replacing_existing`, wait for pending uploads
    /// first. `pixels` is `None` when the texture cannot be read: the transition then fails.
    Create { id: u64, replacing_existing: bool, width: u32, height: u32, pixels: Option<Vec<u8>> },
    /// Upload `pixels` into the rectangle of `image`; `None` pixels fail the transition.
    Update {
        id: u64,
        image: u64,
        x: u32,
        y: u32,
        width: u32,
        height: u32,
        pixels: Option<Vec<u8>>,
    },
    /// The clipped update rectangle is empty: the texture is already up to date.
    Unchanged,
    /// Destroy texture `id`; when `present`, wait for pending uploads first.
    Destroy { id: u64, present: bool },
}

/// The id a legacy create lands on: the texture's own id when it names a live texture, else a
/// fresh one; and whether a live texture is replaced.
pub open spec fn legacy_create_target<S>(v: TextureManagerView<S>, tex_id: u64) -> (u64, bool) {
    if tex_id != 0 && v.textures.contains_key(tex_id) {
        (tex_id, true)
    } else {
        (v.next_id, v.textures.contains_key(v.next_id))
    }
}

/// The manager after choosing the target of a legacy create.
pub open spec fn after_legacy_target<S>(v: TextureManagerView<S>, tex_id: u64) -> TextureManagerView<S> {
    if tex_id != 0 && v.textures.contains_key(tex_id) {
        v
    } else {
        TextureManagerView { next_id: next_texture_id(v.next_id), ..v }
    }
}

/// Where a legacy create lands. A create for a nonzero id that names a live legacy texture
/// replaces that texture in place: it targets that id, waits for the texture's uploads
/// (`replacing_existing`) and allocates no id. Any other create takes the next id, advancing the
/// id counter (which saturates at the largest id). Nothing else of the manager changes, and a
/// create waits for uploads exactly when its target names a live texture.
pub proof fn law_legacy_create_target<S>(v: TextureManagerView<S>, tex_id: u64)
    ensures
        ({
            let target = legacy_create_target(v, tex_id);
            let after = after_legacy_target(v, tex_id);
            &&& target.1 == v.textures.contains_key(target.0)
            &&& after == (TextureManagerView { next_id: after.next_id, ..v })
            &&& (tex_id != 0 && v.textures.contains_key(tex_id)) ==> {
                &&& target.0 == tex_id
                &&& target.1
                &&& after.next_id == v.next_id
            }
            &&& !(tex_id != 0 && v.textures.contains_key(tex_id)) ==> {
                &&& target.0 == v.next_id
                &&& v.next_id < u64::MAX ==> after.next_id == v.next_id + 1
                &&& v.next_id == u64::MAX ==> after.next_id == v.next_id
            }
        }),
{
}

/// The complete pixels of a texture as RGBA8, when it can be read.
pub open spec fn full_pixels(td: TextureDataView) -> Option<Seq<u8>> {
    if td.width > 0 && td.height > 0 && subrect_readable(td, 0, 0, td.width as int, td.height as int) {
        Some(subrect_rgba(td, 0, 0, td.width as int, td.height as int))
    } else {
        None
    }
}

/// Whether `plan` creates the texture that `data` describes, per [`legacy_create_target`].
pub open spec fn is_legacy_create<S>(
    plan: LegacyTexturePlan,
    v: TextureManagerView<S>,
    tex_id: u64,
    data: TextureDataView,
) -> bool {
    &&& plan matches LegacyTexturePlan::Create { id, replacing_existing, width, height, pixels }
    &&& id == legacy_create_target(v, tex_id).0
    &&& replacing_existing == legacy_create_target(v, tex_id).1
    &&& width == data.width
    &&& height == data.height
    &&& pixels is Some <==> full_pixels(data) is Some
    &&& pixels matches Some(p) ==> p@ == full_pixels(data)->0
}

/// The result of applying `status` to the legacy texture table.
pub open spec fn legacy_plan_ok<S>(
    plan: LegacyTexturePlan,
    old_v: TextureManagerView<S>,
    new_v: TextureManagerView<S>,
    status: TextureStatus,
    tex_id: u64,
    data: TextureDataView,
    update_rect: TextureRect,
) -> bool {
    match status {
        TextureStatus::UpToDate | TextureStatus::Destroyed => plan is NoAction && new_v == old_v,
        TextureStatus::WantDestroy => {
            &&& plan == (LegacyTexturePlan::Destroy {
                id: tex_id,
                present: old_v.textures.contains_key(tex_id),
            })
            &&& new_v == old_v
        },
        TextureStatus::WantCreate => {
            &&& is_legacy_create(plan, old_v, tex_id, data)
            &&& new_v == after_legacy_target(old_v, tex_id)
        },
        TextureStatus::WantUpdates => if tex_id == 0 || !old_v.textures.contains_key(tex_id) {
            &&& is_legacy_create(plan, old_v, tex_id, data)
            &&& new_v == after_legacy_target(old_v, tex_id)
        } else {
            let existing = old_v.textures[tex_id];
            let c = clamped_rect(update_rect, existing.width, existing.height);
            &&& new_v == old_v
            &&& if c.2 == 0 || c.3 == 0 {
                plan is Unchanged
            } else {
                &&& plan matches LegacyTexturePlan::Update { id, image, x, y, width, height, pixels }
                &&& id == tex_id
                &&& image == existing.image
                &&& (x, y, width, height) == c
                &&& pixels is Some <==> subrect_readable(data, c.0 as int, c.1 as int, c.2 as int, c.3 as int)
                &&& pixels matches Some(p) ==> p@ == subrect_rgba(data, c.0 as int, c.1 as int, c.2 as int, c.3 as int)
            }
        },
    }
}

/// How a managed create request is served.
#[derive(Debug)]
pub enum ManagedCreatePlan {
    /// The live image already holds exactly these pixels: acknowledge with this texture id.
    Ready(u64),
    /// Replace the live image (texture id kept) by one holding `rgba`.
    Replace { texture_id: u64, rgba: Vec<u8> },
    /// Create a first image holding `rgba` under the newly allocated `texture_id`.
    Create { texture_id: u64, rgba: Vec<u8> },
}

/// How a managed update request is served.
#[derive(Debug)]
pub enum ManagedUpdatePlan {
    /// The rectangles leave the pixels as they are: acknowledge with this texture id.
    Unchanged(u64),
    /// Replace the live image (texture id kept) by one holding `rgba`.
    Replace { texture_id: u64, rgba: Vec<u8> },
}

/// One rectangle of a managed texture update, with its pixels in the texture's format.
#[derive(Debug)]
pub struct TextureUploadRect {
    /// Destination rectangle in texels.
    pub rect: TextureRect,
    /// Bytes between the starts of consecutive rows of `data`.
    pub row_pitch: usize,
    /// The rectangle's pixels.
    pub data: Vec<u8>,
}

/// Error of a managed texture request that the renderer cannot serve.
pub open spec fn managed_error(reason: &'static str) -> RendererError {
    RendererError::InvalidRenderState(reason)
}

/// One update rectangle applied to the CPU copy `cur` of a `width` x `height` texture.
pub open spec fn apply_upload(
    cur: Seq<u8>,
    format: TextureFormat,
    width: u32,
    height: u32,
    up: TextureUploadRect,
) -> Result<Seq<u8>, RendererError> {
    let (x, y, w, h) = (up.rect.x as int, up.rect.y as int, up.rect.w as int, up.rect.h as int);
    if w == 0 || h == 0 {
        Ok(cur)
    } else if !(x + w <= width && y + h <= height) {
        Err(managed_error("managed texture update rectangle is out of bounds"))
    } else if !upload_layout_ok(format, w, h, up.row_pitch as int, up.data@.len() as int) {
        Err(managed_error("managed texture has an invalid update upload layout"))
    } else {
        let src = rgba_rows(format, up.data@, w, h as nat, 0, up.row_pitch as int);
        if !rgba_rect_fits(cur.len() as int, width as int, height as int, x, y, w, h, src.len() as int) {
            Err(managed_error("managed texture has an invalid CPU shadow layout"))
        } else {
            Ok(blit_rows(cur, width as int, x, y, w, h as nat, src))
        }
    }
}

/// An accepted update rectangle lands where it says: row `r` of its converted pixels lands on
/// texture row `rect.y + r` starting at column `rect.x`, every byte of the CPU copy outside the
/// rectangle keeps its value, and the copy keeps its size; a nonempty accepted rectangle lies
/// inside the texture.
pub proof fn law_upload_lands_in_its_rectangle(
    cur: Seq<u8>,
    format: TextureFormat,
    width: u32,
    height: u32,
    up: TextureUploadRect,
)
    requires
        apply_upload(cur, format, width, height, up) is Ok,
    ensures
        ({
            let out = apply_upload(cur, format, width, height, up)->Ok_0;
            let x = up.rect.x as int;
            let y = up.rect.y as int;
            let w = up.rect.w as int;
            let h = up.rect.h as int;
            let src = rgba_rows(format, up.data@, w, h as nat, 0, up.row_pitch as int);
            &&& out.len() == cur.len()
            &&& (w > 0 && h > 0) ==> x + w <= width && y + h <= height
            &&& forall|r: int, i: int|
                0 <= r < h && 0 <= i < w * 4 ==> #[trigger] out[blit_offset(width as int, x, y, r, i)]
                    == src[block_offset(w, r, i)]
            &&& forall|k: int|
                0 <= k < cur.len() && !blit_target(k, width as int, x, y, w, h) ==> #[trigger] out[k]
                    == cur[k]
        }),
{
    let x = up.rect.x as int;
    let y = up.rect.y as int;
    let w = up.rect.w as int;
    let h = up.rect.h as int;
    if w != 0 && h != 0 {
        let src = rgba_rows(format, up.data@, w, h as nat, 0, up.row_pitch as int);
        assert((y + h) * (width as int) * 4 <= (width as int) * (height as int) * 4) by (nonlinear_arith)
            requires
                y + h <= height,
                0 <= y,
                0 <= h,
        ;
        assert(h * (w * 4) == w * 4 * h) by (nonlinear_arith);
        lemma_blit_rows_elementwise(cur, width as int, x, y, w, h as nat, src);
    }
}

/// The update rectangles `rects` applied in order to `base`; the first failing rectangle's
/// error otherwise.
pub open spec fn apply_uploads(
    base: Seq<u8>,
    format: TextureFormat,
    width: u32,
    height: u32,
    rects: Seq<TextureUploadRect>,
) -> Result<Seq<u8>, RendererError>
    decreases rects.len(),
{
    if rects.len() == 0 {
        Ok(base)
    } else {
        match apply_uploads(base, format, width, height, rects.drop_last()) {
            Err(e) => Err(e),
            Ok(cur) => apply_upload(cur, format, width, height, rects.last()),
        }
    }
}

/// Whether byte `k` of a `width`-texel-wide CPU copy lies inside one of `rects`.
pub open spec fn covered_by_uploads(k: int, width: u32, rects: Seq<TextureUploadRect>) -> bool {
    exists|j: int|
        0 <= j < rects.len() && blit_target(
            k,
            width as int,
            (#[trigger] rects[j]).rect.x as int,
            rects[j].rect.y as int,
            rects[j].rect.w as int,
            rects[j].rect.h as int,
        )
}

/// Accepted update rectangles are applied in order: the CPU copy keeps its size, every byte
/// outside all rectangles keeps its value, and the last rectangle's pixels are what its
/// rectangle finally holds.
pub proof fn law_uploads_apply_in_order(
    base: Seq<u8>,
    format: TextureFormat,
    width: u32,
    height: u32,
    rects: Seq<TextureUploadRect>,
)
    requires
        apply_uploads(base, format, width, height, rects) is Ok,
    ensures
        ({
            let out = apply_uploads(base, format, width, height, rects)->Ok_0;
            &&& out.len() == base.len()
            &&& forall|k: int|
                0 <= k < base.len() && !covered_by_uploads(k, width, rects) ==> #[trigger] out[k]
                    == base[k]
            &&& rects.len() > 0 ==> {
                let up = rects.last();
                let src = rgba_rows(
                    format,
                    up.data@,
                    up.rect.w as int,
                    up.rect.h as nat,
                    0,
                    up.row_pitch as int,
                );
                forall|r: int, i: int|
                    0 <= r < up.rect.h && 0 <= i < up.rect.w * 4 ==> #[trigger] out[blit_offset(
                        width as int,
                        up.rect.x as int,
                        up.rect.y as int,
                        r,
                        i,
                    )] == src[block_offset(up.rect.w as int, r, i)]
            }
        }),
    decreases rects.len(),
{
    if rects.len() > 0 {
        let prefix = rects.drop_last();
        let up = rects.last();
        let mid_r = apply_uploads(base, format, width, height, prefix);
        assert(mid_r is Ok);
        law_uploads_apply_in_order(base, format, width, height, prefix);
        let mid = mid_r->Ok_0;
        law_upload_lands_in_its_rectangle(mid, format, width, height, up);
        let out = apply_uploads(base, format, width, height, rects)->Ok_0;
        assert(out == apply_upload(mid, format, width, height, up)->Ok_0);
        assert forall|k: int|
            0 <= k < base.len() && !covered_by_uploads(k, width, rects) implies #[trigger] out[k]
            == base[k] by {
            assert(rects[rects.len() - 1] == up);
            if blit_target(
                k,
                width as int,
                up.rect.x as int,
                up.rect.y as int,
                up.rect.w as int,
                up.rect.h as int,
            ) {
                assert(covered_by_uploads(k, width, rects));
            }
            if covered_by_uploads(k, width, prefix) {
                let j = choose|j: int|
                    0 <= j < prefix.len() && blit_target(
                        k,
                        width as int,
                        (#[trigger] prefix[j]).rect.x as int,
                        prefix[j].rect.y as int,
                        prefix[j].rect.w as int,
                        prefix[j].rect.h as int,
                    );
                assert(rects[j] == prefix[j]);
                assert(covered_by_uploads(k, width, rects));
            }
            assert(out[k] == mid[k]);
        }
    }
}

/// Once a prefix of the rectangles fails, the whole sequence fails the same way.
pub proof fn lemma_apply_uploads_failed_prefix(
    base: Seq<u8>,
    format: TextureFormat,
    width: u32,
    height: u32,
    rects: Seq<TextureUploadRect>,
    i: int,
)
    requires
        0 <= i <= rects.len(),
        apply_uploads(base, format, width, height, rects.take(i)) is Err,
    ensures
        apply_uploads(base, format, width, height, rects) == apply_uploads(
            base,
            format,
            width,
            height,
            rects.take(i),
        ),
    decreases rects.len(),
{
    if rects.len() == i {
        assert(rects.take(i) =~= rects);
    } else {
        assert(rects.drop_last().take(i) =~= rects.take(i));
        lemma_apply_uploads_failed_prefix(base, format, width, height, rects.drop_last(), i);
    }
}

/// Whether two byte slices hold the same bytes.
pub fn bytes_equal(a: &[u8], b: &[u8]) -> (r: bool)
    ensures
        r == (a@ == b@),
{
    if a.len() != b.len() {
        return false;
    }
    let mut i: usize = 0;
    while i < a.len()
        invariant
            a@.len() == b@.len(),
            i <= a@.len(),
            forall|j: int| 0 <= j < i ==> a@[j] == b@[j],
        decreases a@.len() - i,
    {
        if a[i] != b[i] {
            proof {
                assert(a@[i as int] != b@[i as int]);
            }
            return false;
        }
        i = i + 1;
    }
    proof {
        assert(a@ =~= b@);
    }
    true
}

/// The manager after live managed texture `t` entered retirement in batch `b` because Dear
/// ImGui destroyed it.
pub open spec fn queued_destroy<S>(v: TextureManagerView<S>, t: S, b: TextureRetirementBatch) -> TextureManagerView<S> {
    TextureManagerView {
        managed: v.managed.remove(t),
        retiring: v.retiring.push(
            (ManagedTextureRetirementKey::Destroyed(t), b, retired_form(v.managed[t])),
        ),
        last_issued: (v.last_issued + 1) as u64,
        ..v
    }
}

/// The manager after the GPU completed every batch up to sequence `seq`: those images leave
/// the queue and the ids of destroyed textures stop resolving.
pub open spec fn completed_view<S>(v: TextureManagerView<S>, seq: u64) -> TextureManagerView<S> {
    TextureManagerView {
        retiring: retained_after(v.retiring, seq),
        managed_ids: release_destroyed(v.managed_ids, retired_through(v.retiring, seq)),
        ..v
    }
}

/// Every texture a manager held, handed out for destruction at teardown.
#[derive(Debug)]
#[verifier::reject_recursive_types(S)]
pub struct TextureTeardown<S> {
    /// Legacy textures by id.
    pub textures: HashMap<u64, VulkanTexture>,
    /// Live managed textures by snapshot identity.
    pub managed: HashMap<S, ManagedVulkanTexture>,
    /// Retiring managed images, in queue order.
    pub retiring: Vec<(ManagedTextureRetirementKey<S>, RetiredManagedVulkanTexture)>,
}

/// Every texture the renderer can draw, by kind.
#[derive(Debug)]
#[verifier::reject_recursive_types(S)]
pub struct TextureManager<S> {
    textures: HashMap<u64, VulkanTexture>,
    managed_textures: HashMap<S, ManagedVulkanTexture>,
    managed_ids: HashMap<u64, S>,
    retiring_textures: RetirementQueue<ManagedTextureRetirementKey<S>, RetiredManagedVulkanTexture>,
    external_textures: HashMap<u64, ExternalTextureBinding>,
    next_id: u64,
}

impl<S: Copy + Eq + std::hash::Hash> View for TextureManager<S> {
    type V = TextureManagerView<S>;

    closed spec fn view(&self) -> TextureManagerView<S> {
        TextureManagerView {
            textures: self.textures@,
            managed: self.managed_textures@,
            managed_ids: self.managed_ids@,
            retiring: self.retiring_textures.pending(),
            queue_id: self.retiring_textures.queue_id(),
            last_issued: self.retiring_textures.last_issued(),
            external: self.external_textures@,
            next_id: self.next_id,
        }
    }
}

impl<S: Copy + Eq + std::hash::Hash> TextureManager<S> {
    /// Internal consistency: a consistent retirement queue and a nonzero next id.
    pub closed spec fn wf(&self) -> bool {
        &&& self.retiring_textures.wf()
        &&& self.next_id >= 1
    }

    /// An empty manager whose first id is 1; its retirement queue draws its identity from
    /// `queue_ids`.
    pub fn new(queue_ids: &mut QueueIdSource) -> (r: Self)
        ensures
            r.wf(),
            r@.queue_id == drawn_queue_id(old(queue_ids).next()),
            final(queue_ids).next() == next_after_draw(old(queue_ids).next()),
            r@.textures.is_empty(),
            r@.managed.is_empty(),
            r@.managed_ids.is_empty(),
            r@.retiring.len() == 0,
            r@.last_issued == 0,
            r@.external.is_empty(),
            r@.next_id == 1,
    {
        TextureManager {
            textures: HashMap::new(),
            managed_textures: HashMap::new(),
            managed_ids: HashMap::new(),
            retiring_textures: RetirementQueue::new(queue_ids),
            external_textures: HashMap::new(),
            next_id: 1,
        }
    }

    /// Hands out the next texture id; ids saturate at the largest value.
    pub fn allocate_id(&mut self) -> (r: u64)
        requires
            old(self).wf(),
        ensures
            final(self).wf(),
            r == old(self)@.next_id,
            r >= 1,
            final(self)@ == (TextureManagerView {
                next_id: next_texture_id(old(self)@.next_id),
                ..old(self)@
            }),
    {
        let id = self.next_id;
        self.next_id = if self.next_id == u64::MAX {
            u64::MAX
        } else {
            self.next_id + 1
        };
        id
    }

    /// The descriptor set that draws `texture_id`, if any texture answers to it.
    pub fn get_descriptor_set(&self, texture_id: u64) -> (r: Option<u64>)
        requires
            self.wf(),
            snapshot_key_laws::<S>(),
        ensures
            r == descriptor_set_for(self@, texture_id),
    {
        if let Some(tex) = self.textures.get(&texture_id) {
            return Some(tex.descriptor_set);
        }
        if let Some(snapshot_id) = self.managed_ids.get(&texture_id) {
            let snapshot_id = *snapshot_id;
            if let Some(texture) = self.managed_textures.get(&snapshot_id) {
                return Some(texture.texture.descriptor_set);
            }
            proof {
                lemma_retirement_key_concrete_eq::<S>();
            }
            return match self.retiring_textures.get(
                &ManagedTextureRetirementKey::Destroyed(snapshot_id),
            ) {
                Some(texture) => Some(texture.texture.descriptor_set),
                None => None,
            };
        }
        match self.external_textures.get(&texture_id) {
            Some(binding) => Some(binding.descriptor_set),
            None => None,
        }
    }

    /// Registers an application-owned descriptor set under a new id.
    pub fn register_external_descriptor_set(&mut self, set: u64) -> (r: u64)
        requires
            old(self).wf(),
        ensures
            final(self).wf(),
            r == old(self)@.next_id,
            final(self)@ == (TextureManagerView {
                next_id: next_texture_id(old(self)@.next_id),
                external: old(self)@.external.insert(
                    r,
                    ExternalTextureBinding {
                        descriptor_set: set,
                        image_view: None,
                        sampler: None,
                        free_descriptor_set: false,
                    },
                ),
                ..old(self)@
            }),
    {
        let id = self.allocate_id();
        self.external_textures.insert(id, ExternalTextureBinding::borrowed_descriptor_set(set));
        id
    }

    /// Registers a renderer-allocated descriptor set for an application view and sampler.
    pub fn register_external_texture(&mut self, set: u64, image_view: u64, sampler: u64) -> (r:
        u64)
        requires
            old(self).wf(),
        ensures
            final(self).wf(),
            r == old(self)@.next_id,
            final(self)@ == (TextureManagerView {
                next_id: next_texture_id(old(self)@.next_id),
                external: old(self)@.external.insert(
                    r,
                    ExternalTextureBinding {
                        descriptor_set: set,
                        image_view: Some(image_view),
                        sampler: Some(sampler),
                        free_descriptor_set: true,
                    },
                ),
                ..old(self)@
            }),
    {
        let id = self.allocate_id();
        self.external_textures.insert(
            id,
            ExternalTextureBinding::owned_descriptor_set(set, image_view, sampler),
        );
        id
    }

    /// Reserves the batch in which an image about to be superseded will retire.
    pub fn reserve_superseded_retirement(&mut self) -> (r: Option<RetirementReservation>)
        requires
            old(self).wf(),
        ensures
            final(self).wf(),
            r is Some <==> can_retire(old(self)@),
            r matches Some(res) ==> {
                &&& res@ == (old(self)@.queue_id, (old(self)@.last_issued + 1) as u64)
                &&& final(self)@ == (TextureManagerView {
                    last_issued: (old(self)@.last_issued + 1) as u64,
                    ..old(self)@
                })
            },
            r is None ==> final(self)@ == old(self)@,
    {
        self.retiring_textures.reserve()
    }

    /// Installs `replacement` as the live image of managed texture `texture`; the image it
    /// supersedes retires in the reserved batch. Returns the texture id of the replacement.
    pub fn install_managed_replacement(
        &mut self,
        texture: S,
        replacement: ManagedVulkanTexture,
        reservation: RetirementReservation,
    ) -> (r: u64)
        requires
            old(self).wf(),
            snapshot_key_laws::<S>(),
            old(self)@.managed.contains_key(texture),
            reservation@.0 == old(self)@.queue_id,
            1 <= reservation@.1 <= old(self)@.last_issued,
            !has_superseded(old(self)@.retiring, reservation@),
        ensures
            final(self).wf(),
            r == replacement.texture_id,
            exists|b: TextureRetirementBatch|
                b@ == reservation@ && final(self)@ == (TextureManagerView {
                    managed: old(self)@.managed.insert(texture, replacement),
                    retiring: old(self)@.retiring.push(
                        (
                            ManagedTextureRetirementKey::Superseded(b),
                            b,
                            retired_form(old(self)@.managed[texture]),
                        ),
                    ),
                    ..old(self)@
                }),
    {
        let texture_id = replacement.texture_id;
        let key = ManagedTextureRetirementKey::Superseded(reservation.batch());
        let previous = self.managed_textures.insert(texture, replacement);
        match previous {
            Some(previous) => {
                let batch = self.retiring_textures.commit(reservation, key, previous.retire());
                proof {
                    assert(key == ManagedTextureRetirementKey::<S>::Superseded(batch));
                }
            },
            None => {
                proof {
                    assert(false);
                }
            },
        }
        texture_id
    }

    /// Moves managed texture `texture` into the retirement queue after Dear ImGui destroyed it.
    ///
    /// A texture already retiring is `Pending`; one neither live nor retiring is `Retired`. When
    /// no batch is left the texture stays live and `Err(())` is returned.
    pub fn request_managed_retirement(&mut self, texture: S) -> (r: Result<RetirementRequest, ()>)
        requires
            old(self).wf(),
            snapshot_key_laws::<S>(),
        ensures
            final(self).wf(),
            ({
                let key = ManagedTextureRetirementKey::Destroyed(texture);
                let old_v = old(self)@;
                if has_key(old_v.retiring, key) {
                    &&& r == Ok::<RetirementRequest, ()>(RetirementRequest::Pending)
                    &&& final(self)@ == old_v
                } else if !old_v.managed.contains_key(texture) {
                    &&& r == Ok::<RetirementRequest, ()>(RetirementRequest::Retired)
                    &&& final(self)@ == old_v
                } else if !can_retire(old_v) {
                    &&& r == Err::<RetirementRequest, ()>(())
                    &&& final(self)@ == old_v
                } else {
                    &&& r matches Ok(RetirementRequest::Queued(b))
                    &&& b@ == (old_v.queue_id, (old_v.last_issued + 1) as u64)
                    &&& final(self)@ == queued_destroy(old_v, texture, b)
                }
            }),
    {
        let key = ManagedTextureRetirementKey::Destroyed(texture);
        proof {
            lemma_retirement_key_concrete_eq::<S>();
        }
        if self.retiring_textures.contains_key(&key) {
            return Ok(RetirementRequest::Pending);
        }
        if !self.managed_textures.contains_key(&texture) {
            return Ok(RetirementRequest::Retired);
        }
        let reservation = match self.retiring_textures.reserve() {
            Some(reservation) => reservation,
            None => return Err(()),
        };
        let managed = self.managed_textures.remove(&texture);
        match managed {
            Some(managed) => {
                let batch = self.retiring_textures.commit(reservation, key, managed.retire());
                Ok(RetirementRequest::Queued(batch))
            },
            None => {
                proof {
                    assert(false);
                }
                Err(())
            },
        }
    }

    /// Removes every retiring image whose batch is not later than `completed` and returns them
    /// for destruction. The ids of destroyed textures stop resolving. `None` when `completed`
    /// was not issued by this manager; nothing changes then.
    pub fn complete_managed_retirements(&mut self, completed: TextureRetirementBatch) -> (r: Option<
        Vec<RetiredManagedVulkanTexture>,
    >)
        requires
            old(self).wf(),
            snapshot_key_laws::<S>(),
        ensures
            final(self).wf(),
            r is None <==> (old(self)@.queue_id == 0 || completed@.0 != old(self)@.queue_id
                || completed@.1 > old(self)@.last_issued),
            r is None ==> final(self)@ == old(self)@,
            r matches Some(done) ==> {
                let retired = retired_through(old(self)@.retiring, completed@.1);
                &&& done@ == retired.map_values(
                    |e: (ManagedTextureRetirementKey<S>, RetiredManagedVulkanTexture)| e.1,
                )
                &&& final(self)@ == completed_view(old(self)@, completed@.1)
            },
    {
        let retired = match self.retiring_textures.complete_through(completed) {
            Some(retired) => retired,
            None => return None,
        };
        let ghost all = retired@;
        let ghost ids0 = self.managed_ids@;
        let ghost mid = self@;
        let mut resources: Vec<RetiredManagedVulkanTexture> = Vec::new();
        let mut i: usize = 0;
        while i < retired.len()
            invariant
                snapshot_key_laws::<S>(),
                self.wf(),
                self@ == (TextureManagerView { managed_ids: self@.managed_ids, ..mid }),
                retired@ == all,
                i <= all.len(),
                self.managed_ids@ == release_destroyed(ids0, all.take(i as int)),
                resources@ == all.take(i as int).map_values(
                    |e: (ManagedTextureRetirementKey<S>, RetiredManagedVulkanTexture)| e.1,
                ),
            decreases all.len() - i,
        {
            let (retirement, managed) = retired[i];
            proof {
                assert(all.take(i + 1).drop_last() =~= all.take(i as int));
            }
            match retirement {
                ManagedTextureRetirementKey::Destroyed(_) => {
                    self.managed_ids.remove(&managed.texture_id);
                },
                ManagedTextureRetirementKey::Superseded(_) => {},
            }
            resources.push(managed);
            i = i + 1;
            proof {
                assert(resources@ =~= all.take(i as int).map_values(
                    |e: (ManagedTextureRetirementKey<S>, RetiredManagedVulkanTexture)| e.1,
                ));
            }
        }
        proof {
            assert(all.take(all.len() as int) =~= all);
        }
        Some(resources)
    }

    /// The latest retirement batch still waiting for GPU completion, if any.
    pub fn pending_texture_retirement(&self) -> (r: Option<TextureRetirementBatch>)
        requires
            self.wf(),
        ensures
            r is None <==> self@.retiring.len() == 0,
            r matches Some(b) ==> b@ == (
                self@.queue_id,
                crate::retirement::max_sequence(self@.retiring),
            ),
    {
        self.retiring_textures.pending_batch()
    }

    /// The legacy texture `id`, if live.
    pub fn texture(&self, id: u64) -> (r: Option<VulkanTexture>)
        ensures
            r == (if self@.textures.contains_key(id) {
                Some(self@.textures[id])
            } else {
                None::<VulkanTexture>
            }),
    {
        match self.textures.get(&id) {
            Some(t) => Some(*t),
            None => None,
        }
    }

    /// Makes `texture` the legacy texture `id` and returns the one it replaces, to destroy.
    pub fn install_texture(&mut self, id: u64, texture: VulkanTexture) -> (r: Option<VulkanTexture>)
        requires
            old(self).wf(),
        ensures
            final(self).wf(),
            r == (if old(self)@.textures.contains_key(id) {
                Some(old(self)@.textures[id])
            } else {
                None::<VulkanTexture>
            }),
            final(self)@ == (TextureManagerView {
                textures: old(self)@.textures.insert(id, texture),
                ..old(self)@
            }),
    {
        self.textures.insert(id, texture)
    }

    /// Forgets the legacy texture `id` and returns it, to destroy.
    pub fn remove_texture(&mut self, id: u64) -> (r: Option<VulkanTexture>)
        requires
            old(self).wf(),
        ensures
            final(self).wf(),
            r == (if old(self)@.textures.contains_key(id) {
                Some(old(self)@.textures[id])
            } else {
                None::<VulkanTexture>
            }),
            final(self)@ == (TextureManagerView {
                textures: old(self)@.textures.remove(id),
                ..old(self)@
            }),
    {
        self.textures.remove(&id)
    }

    /// Decides what a legacy texture transition does: which id a create lands on (allocating a
    /// fresh one unless the texture names a live texture), which clipped rectangle an update
    /// uploads, and whether a destroy must wait for uploads.
    pub fn plan_legacy_update(
        &mut self,
        status: TextureStatus,
        tex_id: u64,
        data: &TextureDataView,
        update_rect: TextureRect,
    ) -> (r: LegacyTexturePlan)
        requires
            old(self).wf(),
            texture_pixels_complete(*data),
        ensures
            final(self).wf(),
            legacy_plan_ok(r, old(self)@, final(self)@, status, tex_id, *data, update_rect),
            status == TextureStatus::WantCreate && tex_id != 0 && old(self)@.textures.contains_key(
                tex_id,
            ) ==> {
                &&& r matches LegacyTexturePlan::Create { id, replacing_existing, .. } && id == tex_id
                    && replacing_existing
                &&& final(self)@ == old(self)@
            },
            (status == TextureStatus::WantCreate || status == TextureStatus::WantUpdates) && !(tex_id
                != 0 && old(self)@.textures.contains_key(tex_id)) ==> {
                &&& r matches LegacyTexturePlan::Create { id, replacing_existing, .. } && id == old(
                    self,
                )@.next_id && replacing_existing == old(self)@.textures.contains_key(old(self)@.next_id)
                &&& final(self)@ == (TextureManagerView {
                    next_id: if old(self)@.next_id == u64::MAX {
                        u64::MAX
                    } else {
                        (old(self)@.next_id + 1) as u64
                    },
                    ..old(self)@
                })
            },
    {
        proof {
            law_legacy_create_target(old(self)@, tex_id);
        }
        match status {
            TextureStatus::UpToDate | TextureStatus::Destroyed => LegacyTexturePlan::NoAction,
            TextureStatus::WantDestroy => LegacyTexturePlan::Destroy {
                id: tex_id,
                present: self.textures.contains_key(&tex_id),
            },
            TextureStatus::WantCreate => self.plan_legacy_create(tex_id, data),
            TextureStatus::WantUpdates => {
                if tex_id == 0 || !self.textures.contains_key(&tex_id) {
                    return self.plan_legacy_create(tex_id, data);
                }
                let existing = match self.textures.get(&tex_id) {
                    Some(t) => *t,
                    None => {
                        proof {
                            assert(false);
                        }
                        return LegacyTexturePlan::Unchanged;
                    },
                };
                let (x, y, w, h) = clamp_rect(update_rect, existing.width, existing.height);
                if w == 0 || h == 0 {
                    return LegacyTexturePlan::Unchanged;
                }
                LegacyTexturePlan::Update {
                    id: tex_id,
                    image: existing.image,
                    x,
                    y,
                    width: w,
                    height: h,
                    pixels: texture_data_to_rgba_subrect(data, x, y, w, h),
                }
            },
        }
    }

    fn plan_legacy_create(&mut self, tex_id: u64, data: &TextureDataView) -> (r: LegacyTexturePlan)
        requires
            old(self).wf(),
            texture_pixels_complete(*data),
        ensures
            final(self).wf(),
            is_legacy_create(r, old(self)@, tex_id, *data),
            final(self)@ == after_legacy_target(old(self)@, tex_id),
    {
        let id = if tex_id != 0 && self.textures.contains_key(&tex_id) {
            tex_id
        } else {
            self.allocate_id()
        };
        let replacing_existing = self.textures.contains_key(&id);
        LegacyTexturePlan::Create {
            id,
            replacing_existing,
            width: data.width,
            height: data.height,
            pixels: texture_data_to_rgba_full(data),
        }
    }

    /// Points an owned application binding at a new image view. Returns the descriptor set and
    /// sampler to write, or `None` (nothing changes) when `texture_id` is not a binding the
    /// renderer owns with a sampler.
    pub fn set_external_view(&mut self, texture_id: u64, image_view: u64) -> (r: Option<(u64, u64)>)
        requires
            old(self).wf(),
        ensures
            final(self).wf(),
            ({
                let ext = old(self)@.external;
                if ext.contains_key(texture_id) && ext[texture_id].free_descriptor_set
                    && ext[texture_id].sampler is Some {
                    let b = ext[texture_id];
                    &&& r == Some((b.descriptor_set, b.sampler->0))
                    &&& final(self)@ == (TextureManagerView {
                        external: ext.insert(
                            texture_id,
                            ExternalTextureBinding { image_view: Some(image_view), ..b },
                        ),
                        ..old(self)@
                    })
                } else {
                    &&& r is None
                    &&& final(self)@ == old(self)@
                }
            }),
    {
        let binding = match self.external_textures.get(&texture_id) {
            Some(b) => *b,
            None => return None,
        };
        if !binding.free_descriptor_set {
            return None;
        }
        let sampler = match binding.sampler {
            Some(s) => s,
            None => return None,
        };
        self.external_textures.insert(
            texture_id,
            ExternalTextureBinding { image_view: Some(image_view), ..binding },
        );
        Some((binding.descriptor_set, sampler))
    }

    /// Points an owned application binding at a new sampler. Returns the descriptor set and
    /// image view to write, or `None` (nothing changes) when `texture_id` is not a binding the
    /// renderer owns with an image view.
    pub fn set_external_sampler(&mut self, texture_id: u64, sampler: u64) -> (r: Option<(u64, u64)>)
        requires
            old(self).wf(),
        ensures
            final(self).wf(),
            ({
                let ext = old(self)@.external;
                if ext.contains_key(texture_id) && ext[texture_id].free_descriptor_set
                    && ext[texture_id].image_view is Some {
                    let b = ext[texture_id];
                    &&& r == Some((b.descriptor_set, b.image_view->0))
                    &&& final(self)@ == (TextureManagerView {
                        external: ext.insert(
                            texture_id,
                            ExternalTextureBinding { sampler: Some(sampler), ..b },
                        ),
                        ..old(self)@
                    })
                } else {
                    &&& r is None
                    &&& final(self)@ == old(self)@
                }
            }),
    {
        let binding = match self.external_textures.get(&texture_id) {
            Some(b) => *b,
            None => return None,
        };
        if !binding.free_descriptor_set {
            return None;
        }
        let image_view = match binding.image_view {
            Some(v) => v,
            None => return None,
        };
        self.external_textures.insert(
            texture_id,
            ExternalTextureBinding { sampler: Some(sampler), ..binding },
        );
        Some((binding.descriptor_set, image_view))
    }

    /// Forgets application binding `texture_id`. Returns the descriptor set to free when the
    /// renderer allocated it.
    pub fn remove_external(&mut self, texture_id: u64) -> (r: Option<u64>)
        requires
            old(self).wf(),
        ensures
            final(self).wf(),
            r == (if old(self)@.external.contains_key(texture_id)
                && old(self)@.external[texture_id].free_descriptor_set {
                Some(old(self)@.external[texture_id].descriptor_set)
            } else {
                None::<u64>
            }),
            final(self)@ == (TextureManagerView {
                external: old(self)@.external.remove(texture_id),
                ..old(self)@
            }),
    {
        match self.external_textures.remove(&texture_id) {
            Some(binding) => if binding.free_descriptor_set {
                Some(binding.descriptor_set)
            } else {
                None
            },
            None => None,
        }
    }

    /// Whether `texture_id` names an application binding.
    pub fn has_external(&self, texture_id: u64) -> (r: bool)
        ensures
            r == self@.external.contains_key(texture_id),
    {
        self.external_textures.contains_key(&texture_id)
    }

    /// Decides how a managed create request is served: refused while the texture's destroy is
    /// still retiring, for zero dimensions, for a malformed upload, or when a retried create
    /// changes the dimensions; otherwise acknowledged as is, replacing the live image, or
    /// creating a first image under a freshly allocated id.
    pub fn plan_managed_create(
        &mut self,
        texture: S,
        format: TextureFormat,
        width: u32,
        height: u32,
        row_pitch: usize,
        pixels: &[u8],
    ) -> (r: Result<ManagedCreatePlan, RendererError>)
        requires
            old(self).wf(),
            snapshot_key_laws::<S>(),
        ensures
            final(self).wf(),
            ({
                let v = old(self)@;
                let rgba = rgba_rows(format, pixels@, width as int, height as nat, 0, row_pitch as int);
                if has_key(v.retiring, ManagedTextureRetirementKey::Destroyed(texture)) {
                    &&& r == Err::<ManagedCreatePlan, RendererError>(
                        managed_error("managed texture was recreated while retirement is pending"),
                    )
                    &&& final(self)@ == v
                } else if width == 0 || height == 0 {
                    &&& r == Err::<ManagedCreatePlan, RendererError>(
                        managed_error("managed texture has zero dimensions"),
                    )
                    &&& final(self)@ == v
                } else if !upload_layout_ok(format, width as int, height as int, row_pitch as int, pixels@.len() as int) {
                    &&& r == Err::<ManagedCreatePlan, RendererError>(
                        managed_error("managed texture has an invalid create upload layout"),
                    )
                    &&& final(self)@ == v
                } else if v.managed.contains_key(texture) {
                    let e = v.managed[texture];
                    &&& final(self)@ == v
                    &&& if e.texture.width != width || e.texture.height != height {
                        r == Err::<ManagedCreatePlan, RendererError>(
                            managed_error("managed texture create dimensions changed during retry"),
                        )
                    } else if e.rgba@ == rgba {
                        r matches Ok(ManagedCreatePlan::Ready(id)) && id == e.texture_id
                    } else {
                        r matches Ok(ManagedCreatePlan::Replace { texture_id, rgba: out })
                            && texture_id == e.texture_id && out@ == rgba
                    }
                } else {
                    &&& r matches Ok(ManagedCreatePlan::Create { texture_id, rgba: out })
                    &&& texture_id == v.next_id
                    &&& out@ == rgba
                    &&& final(self)@ == (TextureManagerView { next_id: next_texture_id(v.next_id), ..v })
                }
            }),
    {
        proof {
            lemma_retirement_key_concrete_eq::<S>();
        }
        if self.retiring_textures.contains_key(&ManagedTextureRetirementKey::Destroyed(texture)) {
            return Err(
                RendererError::InvalidRenderState(
                    "managed texture was recreated while retirement is pending",
                ),
            );
        }
        if width == 0 || height == 0 {
            return Err(RendererError::InvalidRenderState("managed texture has zero dimensions"));
        }
        let rgba = match texture_upload_to_rgba(format, width, height, row_pitch, pixels) {
            Some(rgba) => rgba,
            None => return Err(
                RendererError::InvalidRenderState(
                    "managed texture has an invalid create upload layout",
                ),
            ),
        };
        if let Some(existing) = self.managed_textures.get(&texture) {
            if existing.texture.width != width || existing.texture.height != height {
                return Err(
                    RendererError::InvalidRenderState(
                        "managed texture create dimensions changed during retry",
                    ),
                );
            }
            if bytes_equal(existing.rgba.as_slice(), rgba.as_slice()) {
                return Ok(ManagedCreatePlan::Ready(existing.texture_id));
            }
            return Ok(ManagedCreatePlan::Replace { texture_id: existing.texture_id, rgba });
        }
        let texture_id = self.allocate_id();
        Ok(ManagedCreatePlan::Create { texture_id, rgba })
    }

    /// Records a newly created managed texture: its id resolves to `texture`, which is live.
    pub fn install_managed_texture(&mut self, texture: S, managed: ManagedVulkanTexture)
        requires
            old(self).wf(),
            snapshot_key_laws::<S>(),
        ensures
            final(self).wf(),
            final(self)@ == (TextureManagerView {
                managed_ids: old(self)@.managed_ids.insert(managed.texture_id, texture),
                managed: old(self)@.managed.insert(texture, managed),
                ..old(self)@
            }),
    {
        self.managed_ids.insert(managed.texture_id, texture);
        self.managed_textures.insert(texture, managed);
    }

    /// Decides how a managed update request is served: the rectangles are applied in order to
    /// the CPU copy of the live image. Refused when the texture is not live, when the
    /// dimensions changed, or for the first rectangle that is out of bounds or malformed.
    pub fn plan_managed_update(
        &self,
        texture: S,
        format: TextureFormat,
        width: u32,
        height: u32,
        rects: &[TextureUploadRect],
    ) -> (r: Result<ManagedUpdatePlan, RendererError>)
        requires
            self.wf(),
            snapshot_key_laws::<S>(),
        ensures
            ({
                let v = self@;
                if !v.managed.contains_key(texture) {
                    r == Err::<ManagedUpdatePlan, RendererError>(
                        managed_error("managed texture received an update before create"),
                    )
                } else {
                    let e = v.managed[texture];
                    if e.texture.width != width || e.texture.height != height {
                        r == Err::<ManagedUpdatePlan, RendererError>(
                            managed_error("managed texture update dimensions changed without create"),
                        )
                    } else {
                        match apply_uploads(e.rgba@, format, width, height, rects@) {
                            Err(err) => r == Err::<ManagedUpdatePlan, RendererError>(err),
                            Ok(out) => if out == e.rgba@ {
                                r matches Ok(ManagedUpdatePlan::Unchanged(id)) && id == e.texture_id
                            } else {
                                r matches Ok(ManagedUpdatePlan::Replace { texture_id, rgba })
                                    && texture_id == e.texture_id && rgba@ == out
                            },
                        }
                    }
                }
            }),
    {
        let existing = match self.managed_textures.get(&texture) {
            Some(existing) => existing,
            None => return Err(
                RendererError::InvalidRenderState("managed texture received an update before create"),
            ),
        };
        if existing.texture.width != width || existing.texture.height != height {
            return Err(
                RendererError::InvalidRenderState(
                    "managed texture update dimensions changed without create",
                ),
            );
        }
        let texture_id = existing.texture_id;
        let mut replacement = vstd::slice::slice_to_vec(existing.rgba.as_slice());
        let ghost base = existing.rgba@;
        let mut i: usize = 0;
        while i < rects.len()
            invariant
                i <= rects@.len(),
                snapshot_key_laws::<S>(),
                self@.managed.contains_key(texture),
                *existing == self@.managed[texture],
                base == existing.rgba@,
                existing.texture.width == width,
                existing.texture.height == height,
                apply_uploads(base, format, width, height, rects@.take(i as int)) == Ok::<
                    Seq<u8>,
                    RendererError,
                >(replacement@),
            decreases rects@.len() - i,
        {
            let upload = &rects[i];
            proof {
                assert(rects@.take(i + 1).drop_last() =~= rects@.take(i as int));
                assert(rects@.take(i + 1).last() == *upload);
            }
            let x = upload.rect.x as u32;
            let y = upload.rect.y as u32;
            let w = upload.rect.w as u32;
            let h = upload.rect.h as u32;
            if w == 0 || h == 0 {
                i = i + 1;
                continue;
            }
            let valid_bounds = x + w <= width && y + h <= height;
            if !valid_bounds {
                proof {
                    lemma_apply_uploads_failed_prefix(base, format, width, height, rects@, i + 1);
                }
                return Err(
                    RendererError::InvalidRenderState(
                        "managed texture update rectangle is out of bounds",
                    ),
                );
            }
            let rgba = match texture_upload_to_rgba(
                format,
                w,
                h,
                upload.row_pitch,
                upload.data.as_slice(),
            ) {
                Some(rgba) => rgba,
                None => {
                    proof {
                        lemma_apply_uploads_failed_prefix(base, format, width, height, rects@, i + 1);
                    }
                    return Err(
                        RendererError::InvalidRenderState(
                            "managed texture has an invalid update upload layout",
                        ),
                    );
                },
            };
            if !apply_rgba_rect(replacement.as_mut_slice(), width, height, x, y, w, h, rgba.as_slice()) {
                proof {
                    lemma_apply_uploads_failed_prefix(base, format, width, height, rects@, i + 1);
                }
                return Err(
                    RendererError::InvalidRenderState(
                        "managed texture has an invalid CPU shadow layout",
                    ),
                );
            }
            i = i + 1;
        }
        proof {
            assert(rects@.take(rects@.len() as int) =~= rects@);
        }
        if bytes_equal(replacement.as_slice(), existing.rgba.as_slice()) {
            return Ok(ManagedUpdatePlan::Unchanged(texture_id));
        }
        Ok(ManagedUpdatePlan::Replace { texture_id, rgba: replacement })
    }

    /// Serves a managed destroy request: the texture enters retirement. Returns whether the
    /// destroy can be acknowledged now, which is when nothing of the texture is left; refused
    /// when the retirement queue cannot issue a batch.
    pub fn retire_for_destroy(&mut self, texture: S) -> (r: Result<bool, RendererError>)
        requires
            old(self).wf(),
            snapshot_key_laws::<S>(),
        ensures
            final(self).wf(),
            ({
                let key = ManagedTextureRetirementKey::Destroyed(texture);
                let v = old(self)@;
                if has_key(v.retiring, key) {
                    r == Ok::<bool, RendererError>(false) && final(self)@ == v
                } else if !v.managed.contains_key(texture) {
                    r == Ok::<bool, RendererError>(true) && final(self)@ == v
                } else if !can_retire(v) {
                    &&& r == Err::<bool, RendererError>(
                        managed_error("managed texture retirement batch space is exhausted"),
                    )
                    &&& final(self)@ == v
                } else {
                    &&& r == Ok::<bool, RendererError>(false)
                    &&& exists|b: TextureRetirementBatch|
                        b@ == (v.queue_id, (v.last_issued + 1) as u64) && final(self)@
                            == queued_destroy(v, texture, b)
                }
            }),
    {
        match self.request_managed_retirement(texture) {
            Ok(RetirementRequest::Queued(_)) => Ok(false),
            Ok(RetirementRequest::Pending) => Ok(false),
            Ok(RetirementRequest::Retired) => Ok(true),
            Err(()) => Err(
                RendererError::InvalidRenderState(
                    "managed texture retirement batch space is exhausted",
                ),
            ),
        }
    }

    /// Empties the manager at teardown and hands out every texture it held. Ids stop resolving;
    /// the retirement queue keeps its identity and sequence, so later completions are no-ops.
    pub fn take_all(&mut self) -> (r: TextureTeardown<S>)
        requires
            old(self).wf(),
        ensures
            final(self).wf(),
            r.textures@ == old(self)@.textures,
            r.managed@ == old(self)@.managed,
            r.retiring@ == key_values(old(self)@.retiring),
            final(self)@ == (TextureManagerView {
                textures: Map::empty(),
                managed: Map::empty(),
                managed_ids: Map::empty(),
                retiring: Seq::empty(),
                external: Map::empty(),
                ..old(self)@
            }),
    {
        let mut textures: HashMap<u64, VulkanTexture> = HashMap::new();
        std::mem::swap(&mut textures, &mut self.textures);
        let mut managed: HashMap<S, ManagedVulkanTexture> = HashMap::new();
        std::mem::swap(&mut managed, &mut self.managed_textures);
        let retiring = self.retiring_textures.drain();
        self.managed_ids = HashMap::new();
        self.external_textures = HashMap::new();
        proof {
            assert(self@.retiring =~= Seq::empty());
        }
        TextureTeardown { textures, managed, retiring }
    }
}

/// When every waiting image's batch is not later than `seq`, completing through `seq` leaves
/// nothing waiting.
proof fn lemma_nothing_retained<K, T>(s: Seq<(K, TextureRetirementBatch, T)>, seq: u64)
    requires
        forall|i: int| 0 <= i < s.len() ==> (#[trigger] s[i]).1@.1 <= seq,
    ensures
        retained_after(s, seq) == Seq::<(K, TextureRetirementBatch, T)>::empty(),
    decreases s.len(),
{
    if s.len() > 0 {
        assert forall|i: int| 0 <= i < s.drop_last().len() implies (#[trigger] s.drop_last()[i]).1@.1
            <= seq by {
            assert(s.drop_last()[i] == s[i]);
        }
        lemma_nothing_retained(s.drop_last(), seq);
        assert(s[s.len() - 1] == s.last());
    }
}

/// Dear ImGui's destroy of a managed texture is acknowledged only after its image is released.
///
/// Once a live texture enters retirement in batch `b`, draws of its id keep resolving to its
/// image and a repeated destroy finds it still retiring (so it is not acknowledged). Once the
/// GPU completed `b`, the id no longer resolves and a destroy finds nothing left (so it is
/// acknowledged).
pub proof fn law_destroy_acknowledged_after_completion<S>(
    v: TextureManagerView<S>,
    t: S,
    id: u64,
    b: TextureRetirementBatch,
)
    requires
        keys_distinct(v.retiring),
        forall|i: int| 0 <= i < v.retiring.len() ==> (#[trigger] v.retiring[i]).1@.1 <= v.last_issued,
        v.last_issued < u64::MAX,
        b@ == (v.queue_id, (v.last_issued + 1) as u64),
        v.managed.contains_key(t),
        v.managed[t].texture_id == id,
        v.managed_ids.contains_key(id),
        v.managed_ids[id] == t,
        !v.textures.contains_key(id),
        !v.external.contains_key(id),
        !has_key(v.retiring, ManagedTextureRetirementKey::Destroyed(t)),
    ensures
        descriptor_set_for(queued_destroy(v, t, b), id) == Some(v.managed[t].texture.descriptor_set),
        has_key(queued_destroy(v, t, b).retiring, ManagedTextureRetirementKey::Destroyed(t)),
        !completed_view(queued_destroy(v, t, b), b@.1).managed.contains_key(t),
        !has_key(
            completed_view(queued_destroy(v, t, b), b@.1).retiring,
            ManagedTextureRetirementKey::Destroyed(t),
        ),
        descriptor_set_for(completed_view(queued_destroy(v, t, b), b@.1), id) == None::<u64>,
{
    let key = ManagedTextureRetirementKey::Destroyed(t);
    let v1 = queued_destroy(v, t, b);
    let n = v.retiring.len();
    assert(v1.retiring[n as int].0 == key);
    assert(has_key(v1.retiring, key));
    let c = choose|i: int| 0 <= i < v1.retiring.len() && #[trigger] v1.retiring[i].0 == key;
    if c < n {
        assert(v1.retiring[c] == v.retiring[c]);
        assert(v.retiring[c].0 == key);
        assert(false);
    }
    assert(value_for_key(v1.retiring, key) == retired_form(v.managed[t]));
    assert forall|i: int| 0 <= i < v1.retiring.len() implies (#[trigger] v1.retiring[i]).1@.1 <= b@.1 by {
        if i < n {
            assert(v1.retiring[i] == v.retiring[i]);
        }
    }
    lemma_nothing_retained(v1.retiring, b@.1);
    assert(v1.retiring.drop_last() =~= v.retiring);
    let done = retired_through(v1.retiring, b@.1);
    assert(done.last().0 is Destroyed);
    assert(done.last().1.texture_id == id);
}

} // verus!
