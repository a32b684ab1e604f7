//! Tracking of managed texture uploads between submission and GPU completion.
//!
//! An upload request is identified by its signature: the operation and all of its pixel data.
//! A retried request with the same signature waits for, or is acknowledged by, the upload already
//! in flight; a changed request waits until the old upload completes and is then submitted anew.

use crate::allocator::Memory;
use crate::error::RendererError;
use crate::pixels::{TextureFormat, TextureRect};
use crate::texture_manager::{bytes_equal, TextureUploadRect};
use std::collections::HashMap;
use vstd::laws_eq::obeys_concrete_eq;
use vstd::prelude::*;
use vstd::std_specs::cmp::PartialEqSpec;
use vstd::std_specs::hash::obeys_key_model;

verus! {

broadcast use vstd::std_specs::hash::group_hash_axioms;

/// A managed texture operation requested by Dear ImGui.
#[derive(Debug)]
pub enum TextureOp {
    /// Create the texture from `pixels`, rows `row_pitch` bytes apart.
    Create { format: TextureFormat, width: u32, height: u32, row_pitch: usize, pixels: Vec<u8> },
    /// Upload the given rectangles into the texture.
    Update { format: TextureFormat, width: u32, height: u32, rects: Vec<TextureUploadRect> },
    /// Destroy the texture.
    Destroy,
}

/// One rectangle of an update signature.
#[derive(Debug)]
pub struct UploadRectSignature {
    /// Destination rectangle in texels.
    pub rect: TextureRect,
    /// Bytes between the starts of consecutive rows of `data`.
    pub row_pitch: usize,
    /// The rectangle's pixels.
    pub data: Vec<u8>,
}

/// Everything that identifies one upload request.
#[derive(Debug)]
pub enum UploadSignature {
    /// A create request.
    Create { format: TextureFormat, width: u32, height: u32, row_pitch: usize, pixels: Vec<u8> },
    /// An update request.
    Update { format: TextureFormat, width: u32, height: u32, rects: Vec<UploadRectSignature> },
}

/// An upload signature as a mathematical value.
pub enum SignatureView {
    /// Format, width, height, row pitch and pixels of a create request.
    Create(TextureFormat, u32, u32, usize, Seq<u8>),
    /// Format, width, height and rectangles of an update request.
    Update(TextureFormat, u32, u32, Seq<(TextureRect, usize, Seq<u8>)>),
}

/// A rectangle signature as a mathematical value.
pub open spec fn rect_signature_view(r: UploadRectSignature) -> (TextureRect, usize, Seq<u8>) {
    (r.rect, r.row_pitch, r.data@)
}

/// An update rectangle as a mathematical value.
pub open spec fn upload_rect_view(r: TextureUploadRect) -> (TextureRect, usize, Seq<u8>) {
    (r.rect, r.row_pitch, r.data@)
}

impl View for UploadSignature {
    type V = SignatureView;

    open spec fn view(&self) -> SignatureView {
        match self {
            UploadSignature::Create { format, width, height, row_pitch, pixels } => SignatureView::Create(
                *format,
                *width,
                *height,
                *row_pitch,
                pixels@,
            ),
            UploadSignature::Update { format, width, height, rects } => SignatureView::Update(
                *format,
                *width,
                *height,
                rects@.map_values(|r: UploadRectSignature| rect_signature_view(r)),
            ),
        }
    }
}

/// The signature of an operation, `None` for a destroy.
pub open spec fn operation_signature(op: TextureOp) -> Option<SignatureView> {
    match op {
        TextureOp::Create { format, width, height, row_pitch, pixels } => Some(
            SignatureView::Create(format, width, height, row_pitch, pixels@),
        ),
        TextureOp::Update { format, width, height, rects } => Some(
            SignatureView::Update(
                format,
                width,
                height,
                rects@.map_values(|r: TextureUploadRect| upload_rect_view(r)),
            ),
        ),
        TextureOp::Destroy => None,
    }
}

impl UploadSignature {
    /// The signature of a create or update operation; `None` for a destroy.
    pub fn from_operation(operation: &TextureOp) -> (r: Option<UploadSignature>)
        ensures
            r is Some <==> operation_signature(*operation) is Some,
            r matches Some(sig) ==> sig@ == operation_signature(*operation)->0,
    {
        match operation {
            TextureOp::Create { format, width, height, row_pitch, pixels } => Some(
                UploadSignature::Create {
                    format: *format,
                    width: *width,
                    height: *height,
                    row_pitch: *row_pitch,
                    pixels: vstd::slice::slice_to_vec(pixels.as_slice()),
                },
            ),
            TextureOp::Update { format, width, height, rects } => {
                let mut out: Vec<UploadRectSignature> = Vec::new();
                let mut i: usize = 0;
                while i < rects.len()
                    invariant
                        i <= rects@.len(),
                        out@.len() == i,
                        forall|j: int|
                            0 <= j < i ==> rect_signature_view(#[trigger] out@[j])
                                == upload_rect_view(rects@[j]),
                    decreases rects@.len() - i,
                {
                    let upload = &rects[i];
                    out.push(
                        UploadRectSignature {
                            rect: upload.rect,
                            row_pitch: upload.row_pitch,
                            data: vstd::slice::slice_to_vec(upload.data.as_slice()),
                        },
                    );
                    i = i + 1;
                }
                proof {
                    assert(out@.map_values(|r: UploadRectSignature| rect_signature_view(r))
                        =~= rects@.map_values(|r: TextureUploadRect| upload_rect_view(r)));
                }
                Some(UploadSignature::Update { format: *format, width: *width, height: *height, rects: out })
            },
            TextureOp::Destroy => None,
        }
    }

    /// Whether two signatures are identical.
    pub fn same_as(&self, other: &UploadSignature) -> (r: bool)
        ensures
            r == (self@ == other@),
    {
        match (self, other) {
            (
                UploadSignature::Create { format: f1, width: w1, height: h1, row_pitch: p1, pixels: x1 },
                UploadSignature::Create { format: f2, width: w2, height: h2, row_pitch: p2, pixels: x2 },
            ) => {
                *f1 == *f2 && *w1 == *w2 && *h1 == *h2 && *p1 == *p2 && bytes_equal(
                    x1.as_slice(),
                    x2.as_slice(),
                )
            },
            (
                UploadSignature::Update { format: f1, width: w1, height: h1, rects: r1 },
                UploadSignature::Update { format: f2, width: w2, height: h2, rects: r2 },
            ) => {
                if !(*f1 == *f2 && *w1 == *w2 && *h1 == *h2) {
                    return false;
                }
                let ghost s1 = r1@.map_values(|r: UploadRectSignature| rect_signature_view(r));
                let ghost s2 = r2@.map_values(|r: UploadRectSignature| rect_signature_view(r));
                if r1.len() != r2.len() {
                    proof {
                        assert(s1.len() != s2.len());
                    }
                    return false;
                }
                let mut i: usize = 0;
                while i < r1.len()
                    invariant
                        r1@.len() == r2@.len(),
                        i <= r1@.len(),
                        s1 == r1@.map_values(|r: UploadRectSignature| rect_signature_view(r)),
                        s2 == r2@.map_values(|r: UploadRectSignature| rect_signature_view(r)),
                        self@ == SignatureView::Update(*f1, *w1, *h1, s1),
                        other@ == SignatureView::Update(*f2, *w2, *h2, s2),
                        *f1 == *f2 && *w1 == *w2 && *h1 == *h2,
                        forall|j: int| 0 <= j < i ==> s1[j] == s2[j],
                    decreases r1@.len() - i,
                {
                    let a = &r1[i];
                    let b = &r2[i];
                    if !(a.rect == b.rect && a.row_pitch == b.row_pitch && bytes_equal(
                        a.data.as_slice(),
                        b.data.as_slice(),
                    )) {
                        proof {
                            assert(s1[i as int] != s2[i as int]);
                        }
                        return false;
                    }
                    i = i + 1;
                }
                proof {
                    assert(s1 =~= s2);
                }
                true
            },
            _ => false,
        }
    }
}

/// Whether an upload's GPU work is still running.
#[derive(Clone, Copy, Debug, PartialEq, Eq, Structural)]
pub enum UploadState {
    /// Submitted; its fence has not been reaped.
    Pending,
    /// Its fence signaled.
    Complete,
}

/// One tracked upload.
#[derive(Debug)]
pub struct ManagedUpload {
    signature: UploadSignature,
    texture_id: u64,
    state: UploadState,
}

/// A tracked upload as a mathematical value.
pub struct UploadEntry {
    /// The request it serves.
    pub signature: SignatureView,
    /// The texture id to acknowledge the request with.
    pub texture_id: u64,
    /// Whether it still runs.
    pub state: UploadState,
}

/// The mathematical value of a tracked upload.
pub closed spec fn upload_entry(u: ManagedUpload) -> UploadEntry {
    UploadEntry { signature: u.signature@, texture_id: u.texture_id, state: u.state }
}

/// What to do with a managed upload request.
#[derive(Clone, Copy, Debug, PartialEq, Eq, Structural)]
pub enum ManagedUploadDecision {
    /// Submit a new upload.
    Submit,
    /// Wait for the upload in flight first.
    Wait,
    /// The request's upload completed: acknowledge it with this texture id.
    Ready(u64),
}

/// The decision on a request with signature `sig` for texture `t`.
pub open spec fn upload_decision<K>(m: Map<K, UploadEntry>, t: K, sig: SignatureView) -> ManagedUploadDecision {
    if !m.contains_key(t) {
        ManagedUploadDecision::Submit
    } else if m[t].state == UploadState::Pending {
        ManagedUploadDecision::Wait
    } else if m[t].signature == sig {
        ManagedUploadDecision::Ready(m[t].texture_id)
    } else {
        ManagedUploadDecision::Submit
    }
}

/// The tracked uploads after deciding a request for texture `t`: a completed upload is dropped.
pub open spec fn after_decision<K>(m: Map<K, UploadEntry>, t: K) -> Map<K, UploadEntry> {
    if m.contains_key(t) && m[t].state == UploadState::Complete {
        m.remove(t)
    } else {
        m
    }
}

/// Uploads in flight or completed but not yet acknowledged, by texture.
#[derive(Debug)]
#[verifier::reject_recursive_types(K)]
pub struct ManagedUploadTracker<K> {
    uploads: HashMap<K, ManagedUpload>,
}

impl<K> View for ManagedUploadTracker<K> {
    type V = Map<K, UploadEntry>;

    closed spec fn view(&self) -> Map<K, UploadEntry> {
        self.uploads@.map_values(|u: ManagedUpload| upload_entry(u))
    }
}

impl<K> Default for ManagedUploadTracker<K> {
    fn default() -> (r: Self)
        ensures
            r@.is_empty(),
    {
        let r = ManagedUploadTracker { uploads: HashMap::new() };
        proof {
            assert(r@ =~= Map::<K, UploadEntry>::empty());
        }
        r
    }
}

impl<K: Copy + Eq + std::hash::Hash> ManagedUploadTracker<K> {
    /// Decides a request with signature `signature` for `texture`.
    ///
    /// With nothing tracked: submit. The same request: wait while pending; once complete,
    /// acknowledge it and stop tracking. A changed request: wait while the old upload runs;
    /// once it completed, drop it and submit.
    pub fn decide(&mut self, texture: K, signature: &UploadSignature) -> (r: ManagedUploadDecision)
        requires
            obeys_key_model::<K>(),
        ensures
            r == upload_decision(old(self)@, texture, signature@),
            final(self)@ == after_decision(old(self)@, texture),
    {
        let (same, state, texture_id) = match self.uploads.get(&texture) {
            None => return ManagedUploadDecision::Submit,
            Some(upload) => (upload.signature.same_as(signature), upload.state, upload.texture_id),
        };
        if same {
            match state {
                UploadState::Pending => ManagedUploadDecision::Wait,
                UploadState::Complete => {
                    self.uploads.remove(&texture);
                    proof {
                        assert(self@ =~= old(self)@.remove(texture));
                    }
                    ManagedUploadDecision::Ready(texture_id)
                },
            }
        } else if state == UploadState::Pending {
            ManagedUploadDecision::Wait
        } else {
            self.uploads.remove(&texture);
            proof {
                assert(self@ =~= old(self)@.remove(texture));
            }
            ManagedUploadDecision::Submit
        }
    }

    /// Tracks a just-submitted upload of `texture` as pending.
    pub fn submitted(&mut self, texture: K, signature: UploadSignature, texture_id: u64)
        requires
            obeys_key_model::<K>(),
        ensures
            final(self)@ == old(self)@.insert(
                texture,
                UploadEntry { signature: signature@, texture_id, state: UploadState::Pending },
            ),
    {
        self.uploads.insert(texture, ManagedUpload { signature, texture_id, state: UploadState::Pending });
        proof {
            assert(self@ =~= old(self)@.insert(
                texture,
                UploadEntry { signature: signature@, texture_id, state: UploadState::Pending },
            ));
        }
    }

    /// Marks the upload of `texture`, if tracked, as complete.
    pub fn completed(&mut self, texture: K)
        requires
            obeys_key_model::<K>(),
        ensures
            old(self)@.contains_key(texture) ==> final(self)@ == old(self)@.insert(
                texture,
                UploadEntry { state: UploadState::Complete, ..old(self)@[texture] },
            ),
            !old(self)@.contains_key(texture) ==> final(self)@ == old(self)@,
    {
        if let Some(upload) = self.uploads.remove(&texture) {
            let ManagedUpload { signature, texture_id, state: _ } = upload;
            self.uploads.insert(texture, ManagedUpload { signature, texture_id, state: UploadState::Complete });
            proof {
                assert(self@ =~= old(self)@.insert(
                    texture,
                    UploadEntry { state: UploadState::Complete, ..old(self)@[texture] },
                ));
            }
        }
    }

    /// Stops tracking a completed upload of `texture` and returns its texture id; `None`, with
    /// nothing changed, when no completed upload is tracked.
    pub fn take_completed(&mut self, texture: K) -> (r: Option<u64>)
        requires
            obeys_key_model::<K>(),
        ensures
            ({
                let m = old(self)@;
                if m.contains_key(texture) && m[texture].state == UploadState::Complete {
                    r == Some(m[texture].texture_id) && final(self)@ == m.remove(texture)
                } else {
                    r is None && final(self)@ == m
                }
            }),
    {
        let complete = match self.uploads.get(&texture) {
            None => return None,
            Some(upload) => upload.state == UploadState::Complete,
        };
        if !complete {
            return None;
        }
        match self.uploads.remove(&texture) {
            Some(upload) => {
                proof {
                    assert(self@ =~= old(self)@.remove(texture));
                }
                Some(upload.texture_id)
            },
            None => None,
        }
    }

    /// Stops tracking `texture`.
    pub fn cancel(&mut self, texture: K)
        requires
            obeys_key_model::<K>(),
        ensures
            final(self)@ == old(self)@.remove(texture),
    {
        self.uploads.remove(&texture);
        proof {
            assert(self@ =~= old(self)@.remove(texture));
        }
    }

    /// Whether an upload of `texture` is in flight.
    pub fn is_pending(&self, texture: K) -> (r: bool)
        requires
            obeys_key_model::<K>(),
        ensures
            r == (self@.contains_key(texture) && self@[texture].state == UploadState::Pending),
    {
        match self.uploads.get(&texture) {
            Some(upload) => upload.state == UploadState::Pending,
            None => false,
        }
    }
}

/// After waiting for the upload of `texture`: a failed wait is returned with the upload still
/// tracked; otherwise the completed upload's texture id, if any, is taken.
pub fn finish_managed_upload_gate<K: Copy + Eq + std::hash::Hash, E>(
    tracker: &mut ManagedUploadTracker<K>,
    texture: K,
    wait_result: Result<(), E>,
) -> (r: Result<Option<u64>, E>)
    requires
        obeys_key_model::<K>(),
    ensures
        match wait_result {
            Err(e) => r == Err::<Option<u64>, E>(e) && final(tracker)@ == old(tracker)@,
            Ok(_) => {
                let m = old(tracker)@;
                if m.contains_key(texture) && m[texture].state == UploadState::Complete {
                    r == Ok::<Option<u64>, E>(Some(m[texture].texture_id)) && final(tracker)@
                        == m.remove(texture)
                } else {
                    r == Ok::<Option<u64>, E>(None) && final(tracker)@ == m
                }
            },
        },
{
    match wait_result {
        Err(e) => Err(e),
        Ok(()) => Ok(tracker.take_completed(texture)),
    }
}

/// After waiting for the upload of a texture being destroyed: a failed wait is returned with
/// the upload still tracked; otherwise the texture stops being tracked.
pub fn finish_destroy_upload_gate<K: Copy + Eq + std::hash::Hash, E>(
    tracker: &mut ManagedUploadTracker<K>,
    texture: K,
    wait_result: Result<(), E>,
) -> (r: Result<(), E>)
    requires
        obeys_key_model::<K>(),
    ensures
        match wait_result {
            Err(e) => r == Err::<(), E>(e) && final(tracker)@ == old(tracker)@,
            Ok(_) => r is Ok && final(tracker)@ == old(tracker)@.remove(texture),
        },
{
    match wait_result {
        Err(e) => Err(e),
        Ok(()) => {
            tracker.cancel(texture);
            Ok(())
        },
    }
}

/// A submitted upload whose command buffer may still run on the GPU.
#[derive(Debug)]
pub struct InFlightUpload<K> {
    /// The fence its submission signals.
    pub fence: u64,
    /// Its command buffer.
    pub command_buffer: u64,
    /// Staging buffers and their memory, released once the GPU is done.
    pub staging: Vec<(u64, Memory)>,
    /// The managed texture it uploads, if any.
    pub managed_texture: Option<K>,
}

/// The tracked uploads after the upload of `texture` (if any) completed.
pub open spec fn after_completion<K>(m: Map<K, UploadEntry>, texture: Option<K>) -> Map<K, UploadEntry> {
    match texture {
        Some(t) => if m.contains_key(t) {
            m.insert(t, UploadEntry { state: UploadState::Complete, ..m[t] })
        } else {
            m
        },
        None => m,
    }
}

/// The tracked uploads after every upload of `uploads` completed, in order.
pub open spec fn after_completions<K>(m: Map<K, UploadEntry>, uploads: Seq<InFlightUpload<K>>) -> Map<
    K,
    UploadEntry,
>
    decreases uploads.len(),
{
    if uploads.len() == 0 {
        m
    } else {
        after_completion(
            after_completions(m, uploads.drop_last()),
            uploads.last().managed_texture,
        )
    }
}

/// The fence of the first upload of managed texture `texture`.
pub open spec fn first_fence_for<K>(uploads: Seq<InFlightUpload<K>>, texture: K) -> Option<u64>
    decreases uploads.len(),
{
    if uploads.len() == 0 {
        None
    } else if uploads[0].managed_texture == Some(texture) {
        Some(uploads[0].fence)
    } else {
        first_fence_for(uploads.drop_first(), texture)
    }
}

/// Submitted uploads, oldest first. They complete in submission order, so only the oldest one
/// is ever reaped.
#[derive(Debug)]
pub struct UploadQueue<K> {
    uploads: Vec<InFlightUpload<K>>,
}

impl<K> View for UploadQueue<K> {
    type V = Seq<InFlightUpload<K>>;

    closed spec fn view(&self) -> Seq<InFlightUpload<K>> {
        self.uploads@
    }
}

impl<K: Copy + Eq + std::hash::Hash> UploadQueue<K> {
    /// No upload in flight.
    pub fn new() -> (r: Self)
        ensures
            r@ == Seq::<InFlightUpload<K>>::empty(),
    {
        UploadQueue { uploads: Vec::new() }
    }

    /// Records a submitted upload.
    pub fn push(&mut self, upload: InFlightUpload<K>)
        ensures
            final(self)@ == old(self)@.push(upload),
    {
        self.uploads.push(upload);
    }

    /// How many uploads are in flight.
    pub fn len(&self) -> (r: usize)
        ensures
            r == self@.len(),
    {
        self.uploads.len()
    }

    /// The fence of the oldest upload, whose status decides whether it can be reaped.
    pub fn front_fence(&self) -> (r: Option<u64>)
        ensures
            self@.len() == 0 ==> r is None,
            self@.len() > 0 ==> r == Some(self@[0].fence),
    {
        if self.uploads.len() == 0 {
            None
        } else {
            Some(self.uploads[0].fence)
        }
    }

    /// Removes the oldest upload after its fence signaled and marks its managed texture's upload
    /// complete. The caller releases what it returns.
    pub fn pop_completed_front(&mut self, tracker: &mut ManagedUploadTracker<K>) -> (r: Option<
        InFlightUpload<K>,
    >)
        requires
            obeys_key_model::<K>(),
        ensures
            old(self)@.len() == 0 ==> r is None && final(self)@ == old(self)@ && final(tracker)@
                == old(tracker)@,
            old(self)@.len() > 0 ==> {
                &&& r == Some(old(self)@[0])
                &&& final(self)@ == old(self)@.drop_first()
                &&& final(tracker)@ == after_completion(old(tracker)@, old(self)@[0].managed_texture)
            },
    {
        if self.uploads.len() == 0 {
            return None;
        }
        let upload = self.uploads.remove(0);
        proof {
            assert(self.uploads@ =~= old(self)@.drop_first());
        }
        if let Some(texture) = upload.managed_texture {
            tracker.completed(texture);
        }
        Some(upload)
    }

    /// Removes every upload once the GPU is idle, marking each managed upload complete in
    /// submission order. The caller releases what it returns.
    pub fn drain_completed(&mut self, tracker: &mut ManagedUploadTracker<K>) -> (r: Vec<InFlightUpload<K>>)
        requires
            obeys_key_model::<K>(),
        ensures
            r@ == old(self)@,
            final(self)@.len() == 0,
            final(tracker)@ == after_completions(old(tracker)@, old(self)@),
    {
        let ghost orig = self@;
        let ghost start = tracker@;
        let mut taken: Vec<InFlightUpload<K>> = Vec::new();
        std::mem::swap(&mut taken, &mut self.uploads);
        let mut done: Vec<InFlightUpload<K>> = Vec::new();
        while taken.len() > 0
            invariant
                obeys_key_model::<K>(),
                done@ + taken@ == orig,
                tracker@ == after_completions(start, done@),
            decreases taken.len(),
        {
            let upload = taken.remove(0);
            if let Some(texture) = upload.managed_texture {
                tracker.completed(texture);
            }
            let ghost before = done@;
            done.push(upload);
            proof {
                assert(done@.drop_last() =~= before);
                assert(done@ + taken@ =~= orig) by {
                    assert(orig =~= before + seq![upload] + taken@);
                };
            }
        }
        proof {
            assert(done@ =~= orig);
        }
        done
    }

    /// The fence to wait on before the pending feedback of `texture` can be acknowledged.
    pub fn fence_for_managed(&self, texture: K) -> (r: Result<u64, RendererError>)
        requires
            obeys_concrete_eq::<K>(),
        ensures
            r == match first_fence_for(self@, texture) {
                Some(f) => Ok::<u64, RendererError>(f),
                None => Err::<u64, RendererError>(
                    RendererError::InvalidRenderState(
                        "managed texture has pending feedback without an upload fence",
                    ),
                ),
            },
    {
        proof {
            reveal(obeys_concrete_eq);
            assert(self@.subrange(0, self@.len() as int) =~= self@);
        }
        let mut i: usize = 0;
        while i < self.uploads.len()
            invariant
                obeys_concrete_eq::<K>(),
                K::obeys_eq_spec(),
                forall|x: K, y: K| x.eq_spec(&y) <==> (x == y),
                i <= self@.len(),
                first_fence_for(self@, texture) == first_fence_for(
                    self@.subrange(i as int, self@.len() as int),
                    texture,
                ),
            decreases self@.len() - i,
        {
            proof {
                assert(self@.subrange(i as int, self@.len() as int).drop_first() =~= self@.subrange(
                    i + 1,
                    self@.len() as int,
                ));
            }
            let matches = match self.uploads[i].managed_texture {
                Some(t) => t == texture,
                None => false,
            };
            if matches {
                return Ok(self.uploads[i].fence);
            }
            i = i + 1;
        }
        proof {
            assert(self@.subrange(i as int, self@.len() as int).len() == 0);
        }
        Err(
            RendererError::InvalidRenderState(
                "managed texture has pending feedback without an upload fence",
            ),
        )
    }
}

/// A managed upload is acknowledged only after its GPU work completed, and then exactly once.
///
/// While the submitted upload of `t` runs, every request for `t` waits, whatever it asks for.
/// Once the upload completed, the same request is acknowledged with the upload's texture id and
/// the upload stops being tracked, so a further request is submitted anew.
pub proof fn law_feedback_only_after_completion<K>(
    m: Map<K, UploadEntry>,
    t: K,
    sig: SignatureView,
    texture_id: u64,
    other: SignatureView,
)
    ensures
        ({
            let submitted = m.insert(
                t,
                UploadEntry { signature: sig, texture_id, state: UploadState::Pending },
            );
            let completed = submitted.insert(
                t,
                UploadEntry { state: UploadState::Complete, ..submitted[t] },
            );
            &&& upload_decision(submitted, t, other) == ManagedUploadDecision::Wait
            &&& after_decision(submitted, t) == submitted
            &&& upload_decision(completed, t, sig) == ManagedUploadDecision::Ready(texture_id)
            &&& upload_decision(after_decision(completed, t), t, sig) == ManagedUploadDecision::Submit
        }),
{
}

/// A changed request never takes the feedback of an older upload: once that upload completed,
/// the changed request is submitted.
pub proof fn law_changed_request_resubmits<K>(
    m: Map<K, UploadEntry>,
    t: K,
    old_sig: SignatureView,
    new_sig: SignatureView,
    texture_id: u64,
)
    requires
        old_sig != new_sig,
    ensures
        ({
            let completed = m.insert(
                t,
                UploadEntry { signature: old_sig, texture_id, state: UploadState::Complete },
            );
            &&& upload_decision(completed, t, new_sig) == ManagedUploadDecision::Submit
            &&& !after_decision(completed, t).contains_key(t)
        }),
{
}

/// Reaping an upload is what releases its request: while the upload of `t` is in flight the
/// request waits, and once the queue reaped it (its fence signaled) the same request is
/// acknowledged with the upload's texture id.
pub proof fn law_reaped_upload_acknowledges_its_request<K>(
    m: Map<K, UploadEntry>,
    t: K,
    sig: SignatureView,
    texture_id: u64,
)
    ensures
        ({
            let submitted = m.insert(
                t,
                UploadEntry { signature: sig, texture_id, state: UploadState::Pending },
            );
            &&& upload_decision(submitted, t, sig) == ManagedUploadDecision::Wait
            &&& upload_decision(after_completion(submitted, Some(t)), t, sig)
                == ManagedUploadDecision::Ready(texture_id)
        }),
{
}

} // verus!
