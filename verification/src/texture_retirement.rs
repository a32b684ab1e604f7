//! How the renderer learns that the GPU finished a retirement batch before it hands the images of
//! that batch out for destruction: by waiting for the whole device, or by checking fences that the
//! application supplies.

use crate::error::RendererError;
use crate::renderer_lifecycle::RendererLifecycle;
use crate::retirement::{retired_through, TextureRetirementBatch};
use crate::texture_manager::{
    completed_view, snapshot_key_laws, ManagedTextureRetirementKey, RetiredManagedVulkanTexture,
    TextureManager,
};
use crate::vulkan_values::RESULT_ERROR_DEVICE_LOST;
use vstd::prelude::*;

verus! {

/// `reads` are the status queries that checking `fences` in order makes: every queried fence is
/// non-null, every query but the last reported a signaled fence, and the check stopped because it
/// ran out of fences, met a null fence, or the last query did not report a signaled fence.
pub open spec fn fence_reads(fences: Seq<u64>, reads: Seq<Result<bool, RendererError>>) -> bool {
    &&& reads.len() <= fences.len()
    &&& forall|i: int| 0 <= i < reads.len() ==> #[trigger] fences[i] != 0
    &&& forall|i: int| 0 <= i < reads.len() - 1 ==> #[trigger] reads[i] == Ok::<bool, RendererError>(true)
    &&& (reads.len() == fences.len() || fences[reads.len() as int] == 0 || (reads.len() > 0
        && reads.last() != Ok::<bool, RendererError>(true)))
}

/// The outcome of checking `fences` whose status queries returned `reads`: no fence at all is
/// refused; a failed query reports its error; an unsignaled fence and a null fence are reported
/// by their position; otherwise every fence signaled.
pub open spec fn fence_check(fences: Seq<u64>, reads: Seq<Result<bool, RendererError>>) -> Result<
    (),
    RendererError,
> {
    if fences.len() == 0 {
        Err(RendererError::TextureRetirementFencesEmpty)
    } else if reads.len() > 0 && reads.last() is Err {
        Err(reads.last()->Err_0)
    } else if reads.len() > 0 && reads.last() == Ok::<bool, RendererError>(false) {
        Err(RendererError::TextureRetirementFencePending { index: (reads.len() - 1) as usize })
    } else if reads.len() < fences.len() {
        Err(RendererError::TextureRetirementFenceNull { index: reads.len() as usize })
    } else {
        Ok(())
    }
}

/// Every fence before position `p` is non-null and was read as signaled.
pub open spec fn signaled_before(fences: Seq<u64>, reads: Seq<Result<bool, RendererError>>, p: int) -> bool {
    forall|j: int|
        0 <= j < p ==> #[trigger] fences[j] != 0 && j < reads.len() && reads[j] == Ok::<
            bool,
            RendererError,
        >(true)
}

/// A fence check answers for the first fence that is null or not signaled: a null fence is
/// reported by its position, an unsignaled one by its position, a failed query by its error;
/// when every fence is non-null and signaled, the check passes. A non-null fence after only
/// signaled ones is always queried.
pub proof fn law_fence_check_answers_for_the_first_refusal(
    fences: Seq<u64>,
    reads: Seq<Result<bool, RendererError>>,
)
    requires
        fence_reads(fences, reads),
    ensures
        forall|p: int|
            0 <= p < fences.len() && #[trigger] signaled_before(fences, reads, p) ==> {
                &&& fences[p] == 0 ==> fence_check(fences, reads) == Err::<(), RendererError>(
                    RendererError::TextureRetirementFenceNull { index: p as usize },
                )
                &&& fences[p] != 0 ==> p < reads.len()
                &&& (fences[p] != 0 && reads[p] == Ok::<bool, RendererError>(false)) ==> fence_check(
                    fences,
                    reads,
                ) == Err::<(), RendererError>(
                    RendererError::TextureRetirementFencePending { index: p as usize },
                )
                &&& (fences[p] != 0 && reads[p] is Err) ==> fence_check(fences, reads)
                    == Err::<(), RendererError>(reads[p]->Err_0)
            },
        (fences.len() > 0 && signaled_before(fences, reads, fences.len() as int)) ==> fence_check(
            fences,
            reads,
        ) == Ok::<(), RendererError>(()),
        fences.len() == 0 ==> fence_check(fences, reads) == Err::<(), RendererError>(
            RendererError::TextureRetirementFencesEmpty,
        ),
{
    assert forall|p: int|
        0 <= p < fences.len() && #[trigger] signaled_before(fences, reads, p) implies {
        &&& fences[p] == 0 ==> fence_check(fences, reads) == Err::<(), RendererError>(
            RendererError::TextureRetirementFenceNull { index: p as usize },
        )
        &&& fences[p] != 0 ==> p < reads.len()
        &&& (fences[p] != 0 && reads[p] == Ok::<bool, RendererError>(false)) ==> fence_check(
            fences,
            reads,
        ) == Err::<(), RendererError>(
            RendererError::TextureRetirementFencePending { index: p as usize },
        )
        &&& (fences[p] != 0 && reads[p] is Err) ==> fence_check(fences, reads) == Err::<
            (),
            RendererError,
        >(reads[p]->Err_0)
    } by {
        if p > 0 {
            assert(fences[p - 1] != 0);
        }
        if p < reads.len() {
            assert(fences[p] != 0);
            if p < reads.len() - 1 {
                assert(reads[p] == Ok::<bool, RendererError>(true));
            } else {
                assert(reads.last() == reads[p]);
            }
        } else {
            assert(p == reads.len());
            if p > 0 {
                assert(reads.last() == reads[p - 1]);
            }
        }
    }
    if fences.len() > 0 && signaled_before(fences, reads, fences.len() as int) {
        let n = fences.len() - 1;
        assert(fences[n] != 0);
        assert(reads[n] == Ok::<bool, RendererError>(true));
        assert(reads.len() == fences.len());
        assert(reads.last() == reads[n]);
    }
}

/// Checks application fences in order before any retired texture is destroyed.
///
/// `fence_signaled` queries the status of one non-null fence. Checking stops at the first null
/// fence, the first failed query, or the first fence that has not signaled; only then is the
/// outcome reported, so a fence after that point is never queried.
pub fn check_retirement_fences<F>(fences: &[u64], fence_signaled: F) -> (r: Result<(), RendererError>)
    where
        F: Fn(u64) -> Result<bool, RendererError>,
    requires
        forall|f: u64| f != 0 ==> call_requires(fence_signaled, (f,)),
    ensures
        exists|reads: Seq<Result<bool, RendererError>>|
            {
                &&& #[trigger] fence_reads(fences@, reads)
                &&& forall|i: int|
                    0 <= i < reads.len() ==> call_ensures(fence_signaled, (fences@[i],), reads[i])
                &&& r == fence_check(fences@, reads)
            },
        fences@.len() == 0 ==> r == Err::<(), RendererError>(
            RendererError::TextureRetirementFencesEmpty,
        ),
        r is Ok ==> forall|i: int| 0 <= i < fences@.len() ==> fences@[i] != 0,
{
    if fences.len() == 0 {
        proof {
            assert(fence_reads(fences@, Seq::empty()));
        }
        return Err(RendererError::TextureRetirementFencesEmpty);
    }
    let ghost mut reads: Seq<Result<bool, RendererError>> = Seq::empty();
    let mut i: usize = 0;
    while i < fences.len()
        invariant
            forall|f: u64| f != 0 ==> call_requires(fence_signaled, (f,)),
            fences@.len() > 0,
            i <= fences@.len(),
            reads.len() == i,
            forall|j: int| 0 <= j < i ==> #[trigger] fences@[j] != 0,
            forall|j: int| 0 <= j < i ==> #[trigger] reads[j] == Ok::<bool, RendererError>(true),
            forall|j: int|
                0 <= j < i ==> call_ensures(fence_signaled, (fences@[j],), #[trigger] reads[j]),
        decreases fences@.len() - i,
    {
        let fence = fences[i];
        if fence == 0 {
            proof {
                assert(fence_reads(fences@, reads));
                assert(fence_check(fences@, reads) == Err::<(), RendererError>(
                    RendererError::TextureRetirementFenceNull { index: i },
                ));
            }
            return Err(RendererError::TextureRetirementFenceNull { index: i });
        }
        let status = fence_signaled(fence);
        proof {
            reads = reads.push(status);
            assert(reads.last() == status);
            assert forall|j: int| 0 <= j < reads.len() implies call_ensures(
                fence_signaled,
                (fences@[j],),
                reads[j],
            ) by {
                if j < i {
                    assert(reads[j] == reads.drop_last()[j]);
                }
            }
        }
        match status {
            Err(e) => {
                proof {
                    assert(fence_reads(fences@, reads));
                }
                return Err(e);
            },
            Ok(false) => {
                proof {
                    assert(fence_reads(fences@, reads));
                }
                return Err(RendererError::TextureRetirementFencePending { index: i });
            },
            Ok(true) => {},
        }
        i = i + 1;
    }
    proof {
        assert(fence_reads(fences@, reads));
    }
    Ok(())
}

/// The images that completing retirements through sequence `seq` hands out for destruction, in
/// the order they entered the queue.
pub open spec fn released_images<S>(
    retiring: Seq<(ManagedTextureRetirementKey<S>, TextureRetirementBatch, RetiredManagedVulkanTexture)>,
    seq: u64,
) -> Seq<RetiredManagedVulkanTexture> {
    retired_through(retiring, seq).map_values(
        |e: (ManagedTextureRetirementKey<S>, RetiredManagedVulkanTexture)| e.1,
    )
}

/// Whether `textures` refuses `completed`: its queue has no identity, the batch carries another
/// queue's identity, or the batch was never issued.
pub open spec fn batch_unknown<S>(textures: TextureManager<S>, completed: TextureRetirementBatch) -> bool
    where
        S: Copy + Eq + std::hash::Hash,
{
    textures@.queue_id == 0 || completed@.0 != textures@.queue_id || completed@.1
        > textures@.last_issued
}

/// Hands out every retired image whose batch is not later than `completed`, once the caller
/// knows that the GPU finished that batch.
///
/// A destroyed renderer refuses; a batch this renderer did not issue is refused with its
/// sequence. In both cases nothing changes.
pub fn complete_texture_retirements<S>(
    lifecycle: &RendererLifecycle,
    textures: &mut TextureManager<S>,
    completed: TextureRetirementBatch,
) -> (r: Result<Vec<RetiredManagedVulkanTexture>, RendererError>)
    where
        S: Copy + Eq + std::hash::Hash,
    requires
        old(textures).wf(),
        snapshot_key_laws::<S>(),
    ensures
        final(textures).wf(),
        lifecycle.destroyed ==> {
            &&& r == Err::<Vec<RetiredManagedVulkanTexture>, RendererError>(
                RendererError::RendererDestroyed,
            )
            &&& final(textures)@ == old(textures)@
        },
        !lifecycle.destroyed && batch_unknown(*old(textures), completed) ==> {
            &&& r == Err::<Vec<RetiredManagedVulkanTexture>, RendererError>(
                RendererError::TextureRetirementBatchUnknown { sequence: completed@.1 },
            )
            &&& final(textures)@ == old(textures)@
        },
        !lifecycle.destroyed && !batch_unknown(*old(textures), completed) ==> {
            &&& r matches Ok(done) && done@ == released_images(old(textures)@.retiring, completed@.1)
            &&& final(textures)@ == completed_view(old(textures)@, completed@.1)
        },
{
    if lifecycle.destroyed {
        return Err(RendererError::RendererDestroyed);
    }
    match textures.complete_managed_retirements(completed) {
        Some(done) => Ok(done),
        None => Err(RendererError::TextureRetirementBatchUnknown { sequence: completed.sequence() }),
    }
}

/// Completes retirements through `completed` after the whole device was waited for; `device_idle`
/// is the result of that wait.
///
/// A failed wait other than device loss is reported and nothing changes. Device loss is terminal:
/// the images are still handed out for destruction, and the loss is reported in place of their
/// count. Otherwise the count of images handed out is reported.
pub fn wait_for_texture_retirements<S>(
    lifecycle: &RendererLifecycle,
    textures: &mut TextureManager<S>,
    completed: TextureRetirementBatch,
    device_idle: Result<(), i32>,
) -> (r: (Vec<RetiredManagedVulkanTexture>, Result<usize, RendererError>))
    where
        S: Copy + Eq + std::hash::Hash,
    requires
        old(textures).wf(),
        snapshot_key_laws::<S>(),
    ensures
        final(textures).wf(),
        device_idle is Err && device_idle->Err_0 != RESULT_ERROR_DEVICE_LOST ==> {
            &&& r.0@.len() == 0
            &&& r.1 == Err::<usize, RendererError>(RendererError::Vulkan(device_idle->Err_0))
            &&& final(textures)@ == old(textures)@
        },
        !(device_idle is Err && device_idle->Err_0 != RESULT_ERROR_DEVICE_LOST) ==> {
            if lifecycle.destroyed {
                &&& r.0@.len() == 0
                &&& r.1 == Err::<usize, RendererError>(RendererError::RendererDestroyed)
                &&& final(textures)@ == old(textures)@
            } else if batch_unknown(*old(textures), completed) {
                &&& r.0@.len() == 0
                &&& r.1 == Err::<usize, RendererError>(
                    RendererError::TextureRetirementBatchUnknown { sequence: completed@.1 },
                )
                &&& final(textures)@ == old(textures)@
            } else {
                &&& r.0@ == released_images(old(textures)@.retiring, completed@.1)
                &&& r.1 == if device_idle is Ok {
                    Ok::<usize, RendererError>(r.0@.len() as usize)
                } else {
                    Err::<usize, RendererError>(RendererError::Vulkan(RESULT_ERROR_DEVICE_LOST))
                }
                &&& final(textures)@ == completed_view(old(textures)@, completed@.1)
            }
        },
{
    let device_lost = match device_idle {
        Ok(()) => false,
        Err(code) => {
            if code == RESULT_ERROR_DEVICE_LOST {
                true
            } else {
                return (Vec::new(), Err(RendererError::Vulkan(code)));
            }
        },
    };
    match complete_texture_retirements(lifecycle, textures, completed) {
        Err(e) => (Vec::new(), Err(e)),
        Ok(done) => {
            let count = done.len();
            if device_lost {
                (done, Err(RendererError::Vulkan(RESULT_ERROR_DEVICE_LOST)))
            } else {
                (done, Ok(count))
            }
        },
    }
}

/// Completes retirements through `completed` once every application fence has signaled.
///
/// Every fence is checked before any image is handed out; a refused check leaves the manager
/// unchanged. The images handed out are those of `complete_texture_retirements`.
pub fn complete_texture_retirements_with_fences<S, F>(
    lifecycle: &RendererLifecycle,
    textures: &mut TextureManager<S>,
    completed: TextureRetirementBatch,
    fences: &[u64],
    fence_signaled: F,
) -> (r: Result<Vec<RetiredManagedVulkanTexture>, RendererError>)
    where
        S: Copy + Eq + std::hash::Hash,
        F: Fn(u64) -> Result<bool, RendererError>,
    requires
        old(textures).wf(),
        snapshot_key_laws::<S>(),
        forall|f: u64| f != 0 ==> call_requires(fence_signaled, (f,)),
    ensures
        final(textures).wf(),
        exists|reads: Seq<Result<bool, RendererError>>|
            {
                &&& #[trigger] fence_reads(fences@, reads)
                &&& forall|i: int|
                    0 <= i < reads.len() ==> call_ensures(fence_signaled, (fences@[i],), reads[i])
                &&& match fence_check(fences@, reads) {
                    Err(e) => r == Err::<Vec<RetiredManagedVulkanTexture>, RendererError>(e)
                        && final(textures)@ == old(textures)@,
                    Ok(_) => if lifecycle.destroyed {
                        &&& r == Err::<Vec<RetiredManagedVulkanTexture>, RendererError>(
                            RendererError::RendererDestroyed,
                        )
                        &&& final(textures)@ == old(textures)@
                    } else if batch_unknown(*old(textures), completed) {
                        &&& r == Err::<Vec<RetiredManagedVulkanTexture>, RendererError>(
                            RendererError::TextureRetirementBatchUnknown { sequence: completed@.1 },
                        )
                        &&& final(textures)@ == old(textures)@
                    } else {
                        &&& r matches Ok(done) && done@ == released_images(
                            old(textures)@.retiring,
                            completed@.1,
                        )
                        &&& final(textures)@ == completed_view(old(textures)@, completed@.1)
                    },
                }
            },
{
    let checked = check_retirement_fences(fences, fence_signaled);
    let ghost reads = choose|reads: Seq<Result<bool, RendererError>>|
        {
            &&& #[trigger] fence_reads(fences@, reads)
            &&& forall|i: int|
                0 <= i < reads.len() ==> call_ensures(fence_signaled, (fences@[i],), reads[i])
            &&& checked == fence_check(fences@, reads)
        };
    let r = match checked {
        Err(e) => Err(e),
        Ok(()) => complete_texture_retirements(lifecycle, textures, completed),
    };
    proof {
        assert(fence_reads(fences@, reads));
    }
    r
}

} // verus!
